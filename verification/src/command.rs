//! The chat command vocabularies and their parser.
//!
//! Commands follow a fixed prefix convention: a slash keyword, and for
//! the commands that take one, a single argument after the first
//! space.  Text that matches no command of the current vocabulary is
//! routed to the invalid-command reply.

use vstd::prelude::*;
use vstd::string::StrSliceExecFns;

use crate::text::{all_dec_digits, dec_val, parse_usize, str_eq};

verus! {

/// The commands available while a chat is configuring its repo set.
#[derive(Debug, Clone, PartialEq)]
pub enum GeneralCommand {
    /// Display the command help.
    Help,
    /// Display all configured repos.
    List,
    /// Display all jobs created today.
    Today,
    /// Create a new repo under the given name.
    Create(String),
    /// Select a repo for manipulation by 1-based index.
    SelectRepo(usize),
    /// Delete the chat's repos and start over.
    Reset,
}

/// The commands available while a repo is selected.
#[derive(Debug, Clone, PartialEq)]
pub enum RepoCommand {
    /// Display the command help.
    Help,
    /// Display the selected repo's name and token.
    GetInfo,
    /// Display the selected repo's jobs created today.
    Today,
    /// Display the selected repo's running jobs.
    Running,
    /// Display the selected repo's latest job.
    Latest,
    /// Rename the selected repo.
    Rename(String),
    /// Delete the selected repo.
    Delete,
    /// Deselect the repo without touching the store.
    Cancel,
}

/// Whether no character of `s` is a space.
pub open spec fn no_space(s: Seq<char>) -> bool {
    forall|i: int| 0 <= i < s.len() ==> s[i] != ' '
}

/// Whether `s` is a well-formed index argument: a non-empty digit
/// string whose value fits the platform.
pub open spec fn index_arg(s: Seq<char>) -> bool {
    s.len() > 0 && all_dec_digits(s) && dec_val(s) <= usize::MAX
}

/// Whether `s` is a command of the configuring vocabulary.
pub open spec fn is_general_command_text(s: Seq<char>) -> bool {
    ||| s == "/help"@
    ||| s == "/list"@
    ||| s == "/today"@
    ||| s == "/reset"@
    ||| exists|rest: Seq<char>| s == "/create"@ + seq![' '] + rest
    ||| exists|digits: Seq<char>| s == "/select_repo"@ + seq![' '] + digits && index_arg(digits)
}

/// Whether `s` is a command of the repo-selected vocabulary.
pub open spec fn is_repo_command_text(s: Seq<char>) -> bool {
    ||| s == "/help"@
    ||| s == "/get_info"@
    ||| s == "/today"@
    ||| s == "/running"@
    ||| s == "/latest"@
    ||| s == "/delete"@
    ||| s == "/cancel"@
    ||| exists|rest: Seq<char>| s == "/rename"@ + seq![' '] + rest
}

/// The index of the first space of `s`, or its length if it has none.
fn first_space(s: &str) -> (r: usize)
    ensures
        r <= s@.len(),
        forall|k: int| 0 <= k < r ==> s@[k] != ' ',
        r < s@.len() ==> s@[r as int] == ' ',
{
    let n = s.unicode_len();
    let mut i: usize = 0;
    while i < n
        invariant
            0 <= i <= n,
            n == s@.len(),
            forall|k: int| 0 <= k < i ==> s@[k] != ' ',
        decreases n - i,
    {
        if s.get_char(i) == ' ' {
            return i;
        }
        i = i + 1;
    }
    n
}

/// How a keyword-plus-argument command relates to the first space: `s`
/// splits as the keyword, a space and the rest exactly when the first
/// space falls right after the keyword.
proof fn lemma_arg_framing(s: Seq<char>, kw: Seq<char>, fs: int)
    requires
        kw.len() >= 1,
        no_space(kw),
        0 <= fs <= s.len(),
        forall|k: int| 0 <= k < fs ==> s[k] != ' ',
        fs < s.len() ==> s[fs] == ' ',
    ensures
        (exists|rest: Seq<char>| s == kw + seq![' '] + rest) <==> (fs == kw.len() && fs < s.len()
            && s.take(fs) == kw),
        (fs == kw.len() && fs < s.len() && s.take(fs) == kw) ==> s == kw + seq![' '] + s.skip(
            fs + 1,
        ),
{
    if exists|rest: Seq<char>| s == kw + seq![' '] + rest {
        let rest = choose|rest: Seq<char>| s == kw + seq![' '] + rest;
        assert(s.len() == kw.len() + 1 + rest.len());
        assert(forall|i: int| 0 <= i < kw.len() ==> s[i] == kw[i]);
        assert(s[kw.len() as int] == ' ');
        if fs < kw.len() {
            assert(s[fs] == kw[fs]);
            assert(kw[fs] != ' ');
        }
        if fs > kw.len() {
            assert(s[kw.len() as int] != ' ');
        }
        assert(fs == kw.len());
        assert(s.take(fs) =~= kw);
    }
    if fs == kw.len() && fs < s.len() && s.take(fs) == kw {
        let rest = s.skip(fs + 1);
        assert(s =~= kw + seq![' '] + rest) by {
            assert(forall|i: int| 0 <= i < fs ==> s[i] == #[trigger] s.take(fs)[i]);
        }
    }
}

/// A string that equals a space-free keyword has no space, so its
/// first-space index is its length.
proof fn lemma_exact_keyword(s: Seq<char>, kw: Seq<char>, fs: int)
    requires
        no_space(kw),
        0 <= fs <= s.len(),
        fs < s.len() ==> s[fs] == ' ',
    ensures
        s == kw ==> fs == s.len(),
{
    if s == kw && fs < s.len() {
        assert(s[fs] != ' ');
    }
}

/// The space-free shape of every keyword of both vocabularies.
proof fn lemma_keywords_space_free()
    ensures
        no_space("/help"@),
        no_space("/list"@),
        no_space("/today"@),
        no_space("/reset"@),
        no_space("/create"@),
        no_space("/select_repo"@),
        no_space("/get_info"@),
        no_space("/running"@),
        no_space("/latest"@),
        no_space("/delete"@),
        no_space("/cancel"@),
        no_space("/rename"@),
        "/help"@.len() == 5,
        "/create"@.len() == 7,
        "/select_repo"@.len() == 12,
        "/rename"@.len() == 7,
{
    reveal_strlit("/help");
    reveal_strlit("/list");
    reveal_strlit("/today");
    reveal_strlit("/reset");
    reveal_strlit("/create");
    reveal_strlit("/select_repo");
    reveal_strlit("/get_info");
    reveal_strlit("/running");
    reveal_strlit("/latest");
    reveal_strlit("/delete");
    reveal_strlit("/cancel");
    reveal_strlit("/rename");
}

/// Parses a message of the configuring vocabulary; text that is no
/// command of it parses to nothing.
pub fn parse_general_command(text: &str) -> (r: Option<GeneralCommand>)
    ensures
        r is Some <==> is_general_command_text(text@),
        match r {
            Some(cmd) => match cmd {
                GeneralCommand::Help => text@ == "/help"@,
                GeneralCommand::List => text@ == "/list"@,
                GeneralCommand::Today => text@ == "/today"@,
                GeneralCommand::Reset => text@ == "/reset"@,
                GeneralCommand::Create(name) => text@ == "/create"@ + seq![' '] + name@,
                GeneralCommand::SelectRepo(ix) => exists|digits: Seq<char>|
                    text@ == "/select_repo"@ + seq![' '] + digits && index_arg(digits) && ix
                        == dec_val(digits),
            },
            None => true,
        },
{
    proof {
        lemma_keywords_space_free();
    }
    let n = text.unicode_len();
    let fs = first_space(text);
    proof {
        lemma_arg_framing(text@, "/create"@, fs as int);
        lemma_arg_framing(text@, "/select_repo"@, fs as int);
    }
    if fs == n {
        let t = text.to_owned();
        if t == "/help".to_owned() {
            Some(GeneralCommand::Help)
        } else if t == "/list".to_owned() {
            Some(GeneralCommand::List)
        } else if t == "/today".to_owned() {
            Some(GeneralCommand::Today)
        } else if t == "/reset".to_owned() {
            Some(GeneralCommand::Reset)
        } else {
            proof {
                assert(!(exists|digits: Seq<char>|
                    text@ == "/select_repo"@ + seq![' '] + digits && index_arg(digits))) by {
                    if exists|digits: Seq<char>|
                        text@ == "/select_repo"@ + seq![' '] + digits && index_arg(digits) {
                        assert(exists|rest: Seq<char>| text@ == "/select_repo"@ + seq![' '] + rest);
                    }
                }
            }
            None
        }
    } else {
        proof {
            lemma_exact_keyword(text@, "/help"@, fs as int);
            lemma_exact_keyword(text@, "/list"@, fs as int);
            lemma_exact_keyword(text@, "/today"@, fs as int);
            lemma_exact_keyword(text@, "/reset"@, fs as int);
        }
        let head = text.substring_char(0, fs);
        let tail = text.substring_char(fs + 1, n);
        assert(head@ == text@.take(fs as int));
        assert(tail@ == text@.skip(fs as int + 1));
        if str_eq(head, "/create") {
            proof {
                assert(text@ == "/create"@ + seq![' '] + tail@);
            }
            Some(GeneralCommand::Create(tail.to_owned()))
        } else if str_eq(head, "/select_repo") {
            proof {
                assert(text@ == "/select_repo"@ + seq![' '] + tail@);
            }
            match parse_usize(tail) {
                Some(ix) => {
                    proof {
                        assert(index_arg(tail@));
                    }
                    Some(GeneralCommand::SelectRepo(ix))
                },
                None => {
                    proof {
                        if exists|digits: Seq<char>|
                            text@ == "/select_repo"@ + seq![' '] + digits && index_arg(digits) {
                            let digits = choose|digits: Seq<char>|
                                text@ == "/select_repo"@ + seq![' '] + digits && index_arg(digits);
                            assert(digits =~= tail@);
                        }
                    }
                    None
                },
            }
        } else {
            proof {
                assert(!(exists|rest: Seq<char>| text@ == "/create"@ + seq![' '] + rest));
                assert(!(exists|digits: Seq<char>|
                    text@ == "/select_repo"@ + seq![' '] + digits && index_arg(digits))) by {
                    if exists|digits: Seq<char>|
                        text@ == "/select_repo"@ + seq![' '] + digits && index_arg(digits) {
                        assert(exists|rest: Seq<char>| text@ == "/select_repo"@ + seq![' '] + rest);
                    }
                }
            }
            None
        }
    }
}

/// Parses a message of the repo-selected vocabulary; text that is no
/// command of it parses to nothing.
pub fn parse_repo_command(text: &str) -> (r: Option<RepoCommand>)
    ensures
        r is Some <==> is_repo_command_text(text@),
        match r {
            Some(cmd) => match cmd {
                RepoCommand::Help => text@ == "/help"@,
                RepoCommand::GetInfo => text@ == "/get_info"@,
                RepoCommand::Today => text@ == "/today"@,
                RepoCommand::Running => text@ == "/running"@,
                RepoCommand::Latest => text@ == "/latest"@,
                RepoCommand::Delete => text@ == "/delete"@,
                RepoCommand::Cancel => text@ == "/cancel"@,
                RepoCommand::Rename(name) => text@ == "/rename"@ + seq![' '] + name@,
            },
            None => true,
        },
{
    proof {
        lemma_keywords_space_free();
    }
    let n = text.unicode_len();
    let fs = first_space(text);
    proof {
        lemma_arg_framing(text@, "/rename"@, fs as int);
    }
    if fs == n {
        let t = text.to_owned();
        if t == "/help".to_owned() {
            Some(RepoCommand::Help)
        } else if t == "/get_info".to_owned() {
            Some(RepoCommand::GetInfo)
        } else if t == "/today".to_owned() {
            Some(RepoCommand::Today)
        } else if t == "/running".to_owned() {
            Some(RepoCommand::Running)
        } else if t == "/latest".to_owned() {
            Some(RepoCommand::Latest)
        } else if t == "/delete".to_owned() {
            Some(RepoCommand::Delete)
        } else if t == "/cancel".to_owned() {
            Some(RepoCommand::Cancel)
        } else {
            None
        }
    } else {
        proof {
            lemma_exact_keyword(text@, "/help"@, fs as int);
            lemma_exact_keyword(text@, "/get_info"@, fs as int);
            lemma_exact_keyword(text@, "/today"@, fs as int);
            lemma_exact_keyword(text@, "/running"@, fs as int);
            lemma_exact_keyword(text@, "/latest"@, fs as int);
            lemma_exact_keyword(text@, "/delete"@, fs as int);
            lemma_exact_keyword(text@, "/cancel"@, fs as int);
        }
        let head = text.substring_char(0, fs);
        let tail = text.substring_char(fs + 1, n);
        assert(head@ == text@.take(fs as int));
        assert(tail@ == text@.skip(fs as int + 1));
        if str_eq(head, "/rename") {
            Some(RepoCommand::Rename(tail.to_owned()))
        } else {
            None
        }
    }
}

} // verus!
