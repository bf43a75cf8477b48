//! How a shell is started for a terminal session.

use vstd::prelude::*;
use vstd::string::*;

use crate::text::same_text;

verus! {

/// Shells that take `-o emacs` to turn on emacs-style line editing.
pub open spec fn takes_emacs_option(shell_name: Seq<char>) -> bool {
    shell_name == "zsh"@ || shell_name == "bash"@
}

/// The arguments a shell whose file name is `shell_name` is started with:
/// `-o emacs` for zsh and bash, none for any other.
pub fn shell_args(shell_name: &str) -> (r: Vec<String>)
    ensures
        takes_emacs_option(shell_name@) ==> r@.len() == 2 && r@[0]@ == "-o"@ && r@[1]@ == "emacs"@,
        !takes_emacs_option(shell_name@) ==> r@.len() == 0,
{
    let mut r: Vec<String> = Vec::new();
    if same_text(shell_name, "zsh") || same_text(shell_name, "bash") {
        r.push(String::from_str("-o"));
        r.push(String::from_str("emacs"));
    }
    r
}

} // verus!
