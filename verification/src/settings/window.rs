//! The settings window's name, its page, and the one line of script that can open it on a
//! chosen group.

use vstd::prelude::*;
use vstd::string::*;

verus! {

/// The window label, which is also what the window's capability matches on.
pub const WINDOW: &'static str = "settings";

/// The page the window loads, relative to the front end's root.
pub const PAGE: &'static str = "settings/index.html";

/// An ASCII letter, `A` to `Z` or `a` to `z`.
pub open spec fn ascii_letter(c: char) -> bool {
    ('A' <= c && c <= 'Z') || ('a' <= c && c <= 'z')
}

/// Whether every character of `s` is an ASCII letter.
pub open spec fn all_letters(s: Seq<char>) -> bool {
    forall|i: int| 0 <= i < s.len() ==> ascii_letter(#[trigger] s[i])
}

/// What opens the page before its own script runs.
pub open spec fn script_head() -> Seq<char> {
    "window.__DILE_GROUP__=\""@
}

/// What closes that line.
pub open spec fn script_tail() -> Seq<char> {
    "\";"@
}

/// Whether every character of `s` is an ASCII letter.
fn letters_only(s: &str) -> (letters: bool)
    ensures
        letters == all_letters(s@),
{
    let n = s.unicode_len();
    let mut i: usize = 0;
    while i < n
        invariant
            n == s@.len(),
            i <= n,
            forall|k: int| 0 <= k < i ==> ascii_letter(#[trigger] s@[k]),
        decreases n - i,
    {
        let c = s.get_char(i);
        if !(('A' <= c && c <= 'Z') || ('a' <= c && c <= 'z')) {
            return false;
        }
        i += 1;
    }
    true
}

/// The line that opens the settings window on `group`: a group made of ASCII letters only,
/// quoted into a global the page reads once. Anything else gives no line at all, so nothing
/// that could carry a quote reaches a script.
pub fn group_script(group: Option<&str>) -> (script: Option<String>)
    ensures
        match group {
            Some(name) => if all_letters(name@) {
                script is Some && script->0@ == script_head() + name@ + script_tail()
            } else {
                script is None
            },
            None => script is None,
        },
{
    match group {
        Some(name) => {
            if !letters_only(name) {
                return None;
            }
            let mut script = String::from_str("window.__DILE_GROUP__=\"");
            script.append(name);
            script.append("\";");
            Some(script)
        },
        None => None,
    }
}

/// Whatever group a script is built for, it holds exactly two double quotes, the one that
/// opens the name and the one that closes it: nothing in the name can end the string early.
pub proof fn lemma_group_script_quotes_only_its_own(name: Seq<char>)
    requires
        all_letters(name),
    ensures
        forall|i: int|
            0 <= i < (script_head() + name + script_tail()).len() ==> ((#[trigger] (script_head()
                + name + script_tail())[i] == '"') <==> (i == script_head().len() - 1 || i
                == script_head().len() + name.len())),
{
    reveal_strlit("window.__DILE_GROUP__=\"");
    reveal_strlit("\";");
    let script = script_head() + name + script_tail();
    assert forall|i: int| 0 <= i < script.len() implies ((#[trigger] script[i] == '"') <==> (i
        == script_head().len() - 1 || i == script_head().len() + name.len())) by {
        if i < script_head().len() {
            assert(script[i] == script_head()[i]);
        } else if i < script_head().len() + name.len() {
            assert(script[i] == name[i - script_head().len()]);
            assert(ascii_letter(name[i - script_head().len()]));
        } else {
            assert(script[i] == script_tail()[i - script_head().len() - name.len()]);
        }
    }
}

} // verus!
