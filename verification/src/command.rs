//! Construction of the argument list for the external transfer process.
//!
//! The argument list is a pure function of the resolved settings and one
//! source path: the recursion flag, a remote-shell connection directive
//! carrying port and user, a deletion-sync flag exactly when the source path
//! does not end with the path separator, the source itself, and the remote
//! target with a guaranteed trailing separator. The transfer is real, never
//! a preview: no dry-run flag is ever emitted.

use crate::resolve::ResolvedConfig;
use vstd::prelude::*;
use vstd::string::*;

verus! {

/// A string ends with the path separator.
pub open spec fn ends_with_sep(s: Seq<char>) -> bool {
    s.len() > 0 && s.last() == '/'
}

/// Whether `s` (as given, by its last character) ends with the path separator.
pub fn str_ends_with_sep(s: &str) -> (r: bool)
    ensures
        r == ends_with_sep(s@),
{
    let n = s.unicode_len();
    if n == 0 {
        false
    } else {
        s.get_char(n - 1) == '/'
    }
}

/// The character for one decimal digit.
pub open spec fn digit_char(d: nat) -> char {
    if d == 0 {
        '0'
    } else if d == 1 {
        '1'
    } else if d == 2 {
        '2'
    } else if d == 3 {
        '3'
    } else if d == 4 {
        '4'
    } else if d == 5 {
        '5'
    } else if d == 6 {
        '6'
    } else if d == 7 {
        '7'
    } else if d == 8 {
        '8'
    } else {
        '9'
    }
}

/// The decimal representation of `n`, most significant digit first, without
/// leading zeros (a single digit for values below ten).
pub open spec fn dec_rep(n: nat) -> Seq<char>
    decreases n,
{
    if n < 10 {
        seq![digit_char(n)]
    } else {
        dec_rep(n / 10).push(digit_char(n % 10))
    }
}

/// The one-character string for a decimal digit.
fn digit_str(d: u16) -> (r: &'static str)
    requires
        d < 10,
    ensures
        r@ == seq![digit_char(d as nat)],
{
    let r: &'static str = if d == 0 {
        "0"
    } else if d == 1 {
        "1"
    } else if d == 2 {
        "2"
    } else if d == 3 {
        "3"
    } else if d == 4 {
        "4"
    } else if d == 5 {
        "5"
    } else if d == 6 {
        "6"
    } else if d == 7 {
        "7"
    } else if d == 8 {
        "8"
    } else {
        "9"
    };
    proof {
        reveal_strlit("0");
        reveal_strlit("1");
        reveal_strlit("2");
        reveal_strlit("3");
        reveal_strlit("4");
        reveal_strlit("5");
        reveal_strlit("6");
        reveal_strlit("7");
        reveal_strlit("8");
        reveal_strlit("9");
        assert(r@ =~= seq![digit_char(d as nat)]);
    }
    r
}

/// Render `n` in decimal.
pub fn u16_to_dec(n: u16) -> (s: String)
    ensures
        s@ == dec_rep(n as nat),
    decreases n,
{
    if n < 10 {
        String::from_str(digit_str(n))
    } else {
        let q = n / 10;
        let d = n % 10;
        proof {
            assert(q < n) by (nonlinear_arith)
                requires
                    n >= 10,
                    q == n / 10,
            ;
        }
        let mut s = u16_to_dec(q);
        s.append(digit_str(d));
        proof {
            assert(s@ =~= dec_rep(n as nat));
        }
        s
    }
}

/// The remote-shell connection directive for the transfer tool: which login
/// mechanism, port and user to use.
pub open spec fn spec_connection(port: u16, username: Seq<char>) -> Seq<char> {
    "ssh -p"@ + dec_rep(port as nat) + " -l"@ + username
}

/// Build the connection directive string.
pub fn connection_directive(port: u16, username: &str) -> (r: String)
    ensures
        r@ == spec_connection(port, username@),
{
    let mut r = String::from_str("ssh -p");
    let p = u16_to_dec(port);
    r.append(p.as_str());
    r.append(" -l");
    r.append(username);
    r
}

/// The destination with a trailing separator guaranteed: one is appended
/// exactly when missing.
pub open spec fn with_trailing_sep(d: Seq<char>) -> Seq<char> {
    if ends_with_sep(d) {
        d
    } else {
        d.push('/')
    }
}

/// The remote target handed to the transfer tool: host prefix, then the
/// destination with its trailing separator.
pub open spec fn spec_remote_target(d: Seq<char>) -> Seq<char> {
    "localhost:"@ + with_trailing_sep(d)
}

/// Build the remote target string for a destination path.
pub fn remote_target(dest: &str) -> (r: String)
    ensures
        r@ == spec_remote_target(dest@),
{
    let mut r = String::from_str("localhost:");
    r.append(dest);
    if !str_ends_with_sep(dest) {
        r.append("/");
        proof {
            reveal_strlit("/");
            assert(r@ =~= spec_remote_target(dest@));
        }
    }
    r
}

/// The full argument list for one transfer: the recursion flag, the
/// connection directive, the deletion-sync flag exactly when the source lacks
/// a trailing separator, the source, and the remote target.
pub open spec fn spec_args(port: u16, username: Seq<char>, dest: Seq<char>, source: Seq<char>) -> Seq<
    Seq<char>,
> {
    let head = seq!["-r"@, "-e"@, spec_connection(port, username)];
    let flagged = if ends_with_sep(source) {
        head
    } else {
        head.push("--delete"@)
    };
    flagged.push(source).push(spec_remote_target(dest))
}

/// Build the argument list for transferring `source` under the resolved
/// settings.
pub fn build_args(config: &ResolvedConfig, source: &str) -> (r: Vec<String>)
    ensures
        r@.map_values(|s: String| s@) == spec_args(
            config.port,
            config.username@,
            config.dest@,
            source@,
        ),
{
    let mut r: Vec<String> = Vec::new();
    r.push(String::from_str("-r"));
    r.push(String::from_str("-e"));
    r.push(connection_directive(config.port, config.username.as_str()));
    if !str_ends_with_sep(source) {
        r.push(String::from_str("--delete"));
    }
    r.push(String::from_str(source));
    r.push(remote_target(config.dest.as_str()));
    proof {
        assert(r@.map_values(|s: String| s@) =~= spec_args(
            config.port,
            config.username@,
            config.dest@,
            source@,
        ));
    }
    r
}

/// A destination without a trailing separator gets exactly one appended; one
/// already ending in the separator is kept as it is, so no duplicate arises.
pub proof fn lemma_trailing_sep(d: Seq<char>)
    ensures
        !ends_with_sep(d) ==> with_trailing_sep(d) == d.push('/'),
        ends_with_sep(d) ==> with_trailing_sep(d) == d,
        ends_with_sep(with_trailing_sep(d)),
        with_trailing_sep(with_trailing_sep(d)) == with_trailing_sep(d),
{
}

/// The built arguments carry the deletion-sync flag exactly when the source
/// path does not end with the path separator.
pub proof fn lemma_delete_flag(port: u16, username: Seq<char>, dest: Seq<char>, source: Seq<char>)
    ensures
        spec_args(port, username, dest, source).contains("--delete"@) <==> !ends_with_sep(source),
{
    reveal_strlit("--delete");
    reveal_strlit("-r");
    reveal_strlit("-e");
    reveal_strlit("ssh -p");
    reveal_strlit("localhost:");
    let args = spec_args(port, username, dest, source);
    if !ends_with_sep(source) {
        assert(args[3] == "--delete"@);
        assert(args.contains("--delete"@));
    } else {
        assert forall|i: int| 0 <= i < args.len() implies args[i] != "--delete"@ by {
            assert("--delete"@.len() == 8);
            if i == 0 {
                assert(args[0] == "-r"@ && "-r"@.len() == 2);
            } else if i == 1 {
                assert(args[1] == "-e"@ && "-e"@.len() == 2);
            } else if i == 2 {
                assert(args[2] == spec_connection(port, username));
                assert(spec_connection(port, username)[0] == 's');
                assert("--delete"@[0] == '-');
            } else if i == 3 {
                assert(args[3] == source);
                assert(source.last() == '/');
                assert("--delete"@[7] == 'e');
                if source == "--delete"@ {
                    assert(source.last() == "--delete"@[7]);
                }
            } else {
                assert(args[4] == spec_remote_target(dest));
                assert(spec_remote_target(dest)[0] == 'l');
                assert("--delete"@[0] == '-');
            }
        }
        assert(!args.contains("--delete"@));
    }
}

} // verus!
