//! Assembles every chat notification text.  These functions are total
//! and deterministic: the whole message is pinned, character for
//! character, by the spec functions beside them.
//!
//! Precedence: a supplied description is the message body verbatim and
//! the status headline is not generated; attribution, link and elapsed
//! lines are appended independently of it.

use vstd::prelude::*;
use vstd::string::StringExecFns;

use crate::status::DeployStatus;
use crate::text::int_str;

verus! {

/// The view of an optional string.
pub open spec fn opt_view(o: Option<String>) -> Option<Seq<char>> {
    match o {
        Some(s) => Some(s@),
        None => None,
    }
}

/// A link url with '`' and ')' escaped by a backslash, as the chat
/// transport's markdown dialect requires.
pub open spec fn md_escaped(s: Seq<char>) -> Seq<char>
    decreases s.len(),
{
    if s.len() == 0 {
        Seq::empty()
    } else if s.last() == '`' || s.last() == ')' {
        md_escaped(s.drop_last()) + seq!['\\', s.last()]
    } else {
        md_escaped(s.drop_last()) + seq![s.last()]
    }
}

/// A markdown inline link: "[text](url)", with the url escaped.
pub open spec fn md_link_spec(url: Seq<char>, text: Seq<char>) -> Seq<char> {
    seq!['['] + text + seq![']', '('] + md_escaped(url) + seq![')']
}

/// Relies on teloxide::utils::markdown::link: it renders
/// "[text](url)" and escapes '`' and ')' inside the url with a
/// backslash.
#[verifier::external_body]
fn tg_md_link(url: &str, text: &str) -> (r: String)
    ensures
        r@ == md_link_spec(url@, text@),
{
    teloxide::utils::markdown::link(url, text)
}

/// An HTML anchor: `<a href="href">label</a>`.
pub open spec fn html_anchor_spec(href: Seq<char>, label: Seq<char>) -> Seq<char> {
    "<a href=\""@ + href + "\">"@ + label + "</a>"@
}

/// Builds an HTML anchor with the given target and label.
fn html_anchor(href: &str, label: &str) -> (r: String)
    ensures
        r@ == html_anchor_spec(href@, label@),
{
    let mut s = "<a href=\"".to_owned();
    s.append(href);
    s.append("\">");
    s.append(label);
    s.append("</a>");
    proof {
        assert(s@ =~= html_anchor_spec(href@, label@));
    }
    s
}

/// The attribution line of a markdown message, empty unless both the
/// attribution url and its display name are present.
pub open spec fn md_by_line_spec(by: Option<Seq<char>>, by_name: Option<Seq<char>>) -> Seq<char> {
    if by is Some && by_name is Some {
        "\nby: "@ + md_link_spec(by->0, by_name->0)
    } else {
        Seq::empty()
    }
}

/// The link line of a markdown message, empty unless a url is present.
pub open spec fn md_url_line_spec(url: Option<Seq<char>>, repo_name: Seq<char>) -> Seq<char> {
    if url is Some {
        "\nlink: "@ + md_link_spec(url->0, repo_name)
    } else {
        Seq::empty()
    }
}

/// The body of a job-creation message: the supplied description
/// verbatim, or the running headline.
pub open spec fn create_body_spec(repo_name: Seq<char>, description: Option<Seq<char>>) -> Seq<
    char,
> {
    if description is Some {
        description->0
    } else {
        "🚧 "@ + repo_name + "'s job is running..."@
    }
}

/// The whole job-creation message: body, then attribution line, then
/// link line.
pub open spec fn create_message_spec(
    repo_name: Seq<char>,
    url: Option<Seq<char>>,
    description: Option<Seq<char>>,
    by: Option<Seq<char>>,
    by_name: Option<Seq<char>>,
) -> Seq<char> {
    create_body_spec(repo_name, description) + md_by_line_spec(by, by_name) + md_url_line_spec(
        url,
        repo_name,
    )
}

/// Formats the notification sent when a job is created.
pub fn format_create_message(
    repo_name: &String,
    url: &Option<String>,
    description: &Option<String>,
    by: &Option<String>,
    by_name: &Option<String>,
) -> (r: String)
    ensures
        r@ == create_message_spec(
            repo_name@,
            opt_view(*url),
            opt_view(*description),
            opt_view(*by),
            opt_view(*by_name),
        ),
{
    let mut text = match description {
        Some(d) => d.clone(),
        None => {
            let mut t = "🚧 ".to_owned();
            t.append(repo_name.as_str());
            t.append("'s job is running...");
            t
        },
    };
    match (by, by_name) {
        (Some(b), Some(bn)) => {
            text.append("\nby: ");
            let l = tg_md_link(b.as_str(), bn.as_str());
            text.append(l.as_str());
        },
        _ => {},
    }
    match url {
        Some(u) => {
            text.append("\nlink: ");
            let l = tg_md_link(u.as_str(), repo_name.as_str());
            text.append(l.as_str());
        },
        None => {},
    }
    proof {
        assert(text@ =~= create_message_spec(
            repo_name@,
            opt_view(*url),
            opt_view(*description),
            opt_view(*by),
            opt_view(*by_name),
        ));
    }
    text
}

/// The status headline of a job-update message.
pub open spec fn update_headline_spec(repo_name: Seq<char>, status: DeployStatus) -> Seq<char> {
    match status {
        DeployStatus::Success => "✅ "@ + repo_name + "'s job has completed"@,
        DeployStatus::Failure => "🚨 "@ + repo_name + "'s job encountered failure"@,
        DeployStatus::Running => "🚧 "@ + repo_name + "'s job is running..."@,
        _ => "⛔️ "@ + repo_name + "'s job was cancelled"@,
    }
}

/// The body of a job-update message: the supplied description
/// verbatim, or the status headline.
pub open spec fn update_body_spec(
    repo_name: Seq<char>,
    status: DeployStatus,
    description: Option<Seq<char>>,
) -> Seq<char> {
    if description is Some {
        description->0
    } else {
        update_headline_spec(repo_name, status)
    }
}

/// The whole job-update message: body, attribution line, link line,
/// then the elapsed line.
pub open spec fn update_message_spec(
    repo_name: Seq<char>,
    status: DeployStatus,
    elapsed: Seq<char>,
    url: Option<Seq<char>>,
    description: Option<Seq<char>>,
    by: Option<Seq<char>>,
    by_name: Option<Seq<char>>,
) -> Seq<char> {
    update_body_spec(repo_name, status, description) + md_by_line_spec(by, by_name)
        + md_url_line_spec(url, repo_name) + "\nelapsed: "@ + elapsed
}

/// Formats the notification sent when a job leaves the running state.
pub fn format_update_message(
    repo_name: &String,
    status: DeployStatus,
    elapsed: &String,
    url: &Option<String>,
    description: &Option<String>,
    by: &Option<String>,
    by_name: &Option<String>,
) -> (r: String)
    ensures
        r@ == update_message_spec(
            repo_name@,
            status,
            elapsed@,
            opt_view(*url),
            opt_view(*description),
            opt_view(*by),
            opt_view(*by_name),
        ),
{
    let mut text = match description {
        Some(d) => d.clone(),
        None => {
            match status {
                DeployStatus::Success => {
                    let mut t = "✅ ".to_owned();
                    t.append(repo_name.as_str());
                    t.append("'s job has completed");
                    t
                },
                DeployStatus::Failure => {
                    let mut t = "🚨 ".to_owned();
                    t.append(repo_name.as_str());
                    t.append("'s job encountered failure");
                    t
                },
                DeployStatus::Running => {
                    let mut t = "🚧 ".to_owned();
                    t.append(repo_name.as_str());
                    t.append("'s job is running...");
                    t
                },
                _ => {
                    let mut t = "⛔️ ".to_owned();
                    t.append(repo_name.as_str());
                    t.append("'s job was cancelled");
                    t
                },
            }
        },
    };
    match (by, by_name) {
        (Some(b), Some(bn)) => {
            text.append("\nby: ");
            let l = tg_md_link(b.as_str(), bn.as_str());
            text.append(l.as_str());
        },
        _ => {},
    }
    match url {
        Some(u) => {
            text.append("\nlink: ");
            let l = tg_md_link(u.as_str(), repo_name.as_str());
            text.append(l.as_str());
        },
        None => {},
    }
    text.append("\nelapsed: ");
    text.append(elapsed.as_str());
    proof {
        assert(text@ =~= update_message_spec(
            repo_name@,
            status,
            elapsed@,
            opt_view(*url),
            opt_view(*description),
            opt_view(*by),
            opt_view(*by_name),
        ));
    }
    text
}

/// The attribution line of an HTML message.
pub open spec fn tg_by_line_spec(by: Option<Seq<char>>, by_name: Option<Seq<char>>) -> Seq<char> {
    if by is Some && by_name is Some {
        "\ntriggered by: "@ + html_anchor_spec(by->0, by_name->0)
    } else {
        Seq::empty()
    }
}

/// The link line of an HTML message.
pub open spec fn tg_url_line_spec(url: Option<Seq<char>>, repo_name: Seq<char>) -> Seq<char> {
    if url is Some {
        "\nlink: "@ + html_anchor_spec(url->0, repo_name)
    } else {
        Seq::empty()
    }
}

/// The status headline of a repo-status message.  A repo reported idle
/// that was not previously running has simply never deployed; one that
/// was running was cancelled.
pub open spec fn telegram_headline_spec(
    status: DeployStatus,
    repo_name: Seq<char>,
    last_status: DeployStatus,
) -> Seq<char> {
    match status {
        DeployStatus::Running => "repo: "@ + repo_name + " is deploying... ⚙️"@,
        DeployStatus::Success => "repo: "@ + repo_name + " deployed successfully 🎉"@,
        DeployStatus::Failure => "repo: "@ + repo_name + " failed to deploy 🔥"@,
        DeployStatus::Cancelled => "repo: "@ + repo_name + " deployment was cancelled ⛔️"@,
        DeployStatus::Idle => if last_status != DeployStatus::Running {
            "repo: "@ + repo_name + " is doing nothing 💤"@
        } else {
            "repo: "@ + repo_name + " deployment was cancelled ⛔️"@
        },
    }
}

/// The body of a repo-status message.
pub open spec fn telegram_body_spec(
    status: DeployStatus,
    repo_name: Seq<char>,
    last_status: DeployStatus,
    description: Option<Seq<char>>,
) -> Seq<char> {
    if description is Some {
        description->0
    } else {
        telegram_headline_spec(status, repo_name, last_status)
    }
}

/// The whole repo-status message: body, then attribution line, then
/// link line.
pub open spec fn telegram_message_spec(
    status: DeployStatus,
    repo_name: Seq<char>,
    last_status: DeployStatus,
    url: Option<Seq<char>>,
    description: Option<Seq<char>>,
    by: Option<Seq<char>>,
    by_name: Option<Seq<char>>,
) -> Seq<char> {
    telegram_body_spec(status, repo_name, last_status, description) + tg_by_line_spec(by, by_name)
        + tg_url_line_spec(url, repo_name)
}

/// Formats the notification sent when a repo's deployment status
/// changes.
#[verifier::rlimit(50)]
pub fn format_telegram_message(
    status: DeployStatus,
    repo_name: &String,
    last_status: DeployStatus,
    url: &Option<String>,
    description: &Option<String>,
    by: &Option<String>,
    by_name: &Option<String>,
) -> (r: String)
    ensures
        r@ == telegram_message_spec(
            status,
            repo_name@,
            last_status,
            opt_view(*url),
            opt_view(*description),
            opt_view(*by),
            opt_view(*by_name),
        ),
{
    let mut text = match description {
        Some(d) => d.clone(),
        None => {
            let mut t = "repo: ".to_owned();
            t.append(repo_name.as_str());
            match status {
                DeployStatus::Running => t.append(" is deploying... ⚙️"),
                DeployStatus::Success => t.append(" deployed successfully 🎉"),
                DeployStatus::Failure => t.append(" failed to deploy 🔥"),
                DeployStatus::Cancelled => t.append(" deployment was cancelled ⛔️"),
                DeployStatus::Idle => {
                    if !matches!(last_status, DeployStatus::Running) {
                        t.append(" is doing nothing 💤")
                    } else {
                        t.append(" deployment was cancelled ⛔️")
                    }
                },
            }
            t
        },
    };
    proof {
        assert(text@ =~= telegram_body_spec(
            status,
            repo_name@,
            last_status,
            opt_view(*description),
        ));
    }
    match (by, by_name) {
        (Some(b), Some(bn)) => {
            text.append("\ntriggered by: ");
            let l = html_anchor(b.as_str(), bn.as_str());
            text.append(l.as_str());
        },
        _ => {},
    }
    match url {
        Some(u) => {
            text.append("\nlink: ");
            let l = html_anchor(u.as_str(), repo_name.as_str());
            text.append(l.as_str());
        },
        None => {},
    }
    proof {
        assert(text@ =~= telegram_message_spec(
            status,
            repo_name@,
            last_status,
            opt_view(*url),
            opt_view(*description),
            opt_view(*by),
            opt_view(*by_name),
        ));
    }
    text
}

/// The rendering of an elapsed duration in its largest whole unit:
/// seconds below one minute, minutes below one hour, hours below one
/// day, days otherwise.
pub open spec fn duration_spec(seconds: int) -> Seq<char> {
    if seconds < 60 {
        int_str(seconds) + " second(s)"@
    } else if seconds / 60 < 60 {
        int_str(seconds / 60) + " minute(s)"@
    } else if seconds / 3600 < 24 {
        int_str(seconds / 3600) + " hour(s)"@
    } else {
        int_str(seconds / 86400) + " day(s)"@
    }
}

/// Renders an elapsed duration in its largest whole unit below the
/// next rollover.
pub fn format_duration(seconds: i64) -> (r: String)
    ensures
        r@ == duration_spec(seconds as int),
{
    if seconds < 60 {
        let mut s = crate::text::i64_to_string(seconds);
        s.append(" second(s)");
        s
    } else if seconds / 60 < 60 {
        let mut s = crate::text::i64_to_string(seconds / 60);
        s.append(" minute(s)");
        s
    } else if seconds / 3600 < 24 {
        let mut s = crate::text::i64_to_string(seconds / 3600);
        s.append(" hour(s)");
        s
    } else {
        let mut s = crate::text::i64_to_string(seconds / 86400);
        s.append(" day(s)");
        s
    }
}

/// The formatters are pure: two calls on equal inputs yield the same
/// text.
pub proof fn lemma_formatter_deterministic(
    status1: DeployStatus,
    repo_name1: Seq<char>,
    last_status1: DeployStatus,
    elapsed1: Seq<char>,
    url1: Option<Seq<char>>,
    description1: Option<Seq<char>>,
    by1: Option<Seq<char>>,
    by_name1: Option<Seq<char>>,
    status2: DeployStatus,
    repo_name2: Seq<char>,
    last_status2: DeployStatus,
    elapsed2: Seq<char>,
    url2: Option<Seq<char>>,
    description2: Option<Seq<char>>,
    by2: Option<Seq<char>>,
    by_name2: Option<Seq<char>>,
)
    requires
        status1 == status2,
        repo_name1 == repo_name2,
        last_status1 == last_status2,
        elapsed1 == elapsed2,
        url1 == url2,
        description1 == description2,
        by1 == by2,
        by_name1 == by_name2,
    ensures
        telegram_message_spec(
            status1,
            repo_name1,
            last_status1,
            url1,
            description1,
            by1,
            by_name1,
        ) == telegram_message_spec(
            status2,
            repo_name2,
            last_status2,
            url2,
            description2,
            by2,
            by_name2,
        ),
        create_message_spec(repo_name1, url1, description1, by1, by_name1)
            == create_message_spec(repo_name2, url2, description2, by2, by_name2),
        update_message_spec(repo_name1, status1, elapsed1, url1, description1, by1, by_name1)
            == update_message_spec(repo_name2, status2, elapsed2, url2, description2, by2, by_name2),
{
}

/// A supplied description takes precedence: the message is the
/// description itself, followed by the appended lines, and no status
/// headline is generated.
pub proof fn lemma_description_precedence(
    status: DeployStatus,
    repo_name: Seq<char>,
    last_status: DeployStatus,
    elapsed: Seq<char>,
    url: Option<Seq<char>>,
    description: Option<Seq<char>>,
    by: Option<Seq<char>>,
    by_name: Option<Seq<char>>,
)
    requires
        description is Some,
    ensures
        telegram_message_spec(status, repo_name, last_status, url, description, by, by_name)
            == description->0 + tg_by_line_spec(by, by_name) + tg_url_line_spec(url, repo_name),
        create_message_spec(repo_name, url, description, by, by_name) == description->0
            + md_by_line_spec(by, by_name) + md_url_line_spec(url, repo_name),
        update_message_spec(repo_name, status, elapsed, url, description, by, by_name)
            == description->0 + md_by_line_spec(by, by_name) + md_url_line_spec(url, repo_name)
            + "\nelapsed: "@ + elapsed,
{
}

} // verus!
