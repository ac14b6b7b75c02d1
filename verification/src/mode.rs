//! Parsing of open-mode strings such as `"r"`, `"w+b"` or `"rt"`.
//!
//! A well-formed mode string holds exactly one access letter (`r`, `w` or
//! `a`), at most one `+`, and at most one kind letter (`t` or `b`), in any
//! order and without repetition.  The parser scans left to right and reports
//! the first offence with one of five fixed messages.

use vstd::prelude::*;
use vstd::string::StrSliceExecFns;
use vstd::string::StringExecFns;

verus! {

/// Outcome of scanning a mode string: either the accepted triple, or the
/// first offence found while scanning left to right.
pub enum ModeScan {
    /// The string is well formed: one access letter, an optional plus, and a
    /// kind letter that defaults to `'t'` when absent.
    Accepted { access: char, plus: bool, kind: char },
    /// A character outside the mode alphabet, or a repeated character.
    BadChar,
    /// Both `'t'` and `'b'` occur.
    MixedKind,
    /// Two different access letters occur.
    MultipleAccess,
    /// No access letter occurs.
    MissingAccess,
}

/// One left-to-right scan of `s` starting at position `i`, carrying the
/// access letter, kind letter and plus flag seen so far.
pub open spec fn scan_mode(
    s: Seq<char>,
    i: int,
    access: Option<char>,
    kind: Option<char>,
    plus: bool,
) -> ModeScan
    decreases s.len() - i,
{
    if i < 0 || i >= s.len() {
        match access {
            Option::None => ModeScan::MissingAccess,
            Option::Some(a) => ModeScan::Accepted {
                access: a,
                plus: plus,
                kind: match kind {
                    Option::Some(k) => k,
                    Option::None => 't',
                },
            },
        }
    } else {
        let c = s[i];
        if c == '+' {
            if plus {
                ModeScan::BadChar
            } else {
                scan_mode(s, i + 1, access, kind, true)
            }
        } else if c == 't' || c == 'b' {
            match kind {
                Option::Some(k) => if k == c {
                    ModeScan::BadChar
                } else {
                    ModeScan::MixedKind
                },
                Option::None => scan_mode(s, i + 1, access, Option::Some(c), plus),
            }
        } else if c == 'a' || c == 'r' || c == 'w' {
            match access {
                Option::Some(a) => if a == c {
                    ModeScan::BadChar
                } else {
                    ModeScan::MultipleAccess
                },
                Option::None => scan_mode(s, i + 1, Option::Some(c), kind, plus),
            }
        } else {
            ModeScan::BadChar
        }
    }
}

/// Scan of a whole mode string.
pub open spec fn mode_scan(s: Seq<char>) -> ModeScan {
    scan_mode(s, 0, Option::None, Option::None, false)
}

/// The access part of the parser's answer: the access letter, with `'+'`
/// appended when a plus was seen.
pub open spec fn scan_access_chars(m: ModeScan) -> Seq<char>
    recommends
        m is Accepted,
{
    if m->plus {
        seq![m->access, '+']
    } else {
        seq![m->access]
    }
}

/// Message reported for a character outside the alphabet or a repetition.
pub open spec fn invalid_mode_message(s: Seq<char>) -> Seq<char> {
    "invalid mode: '"@ + s + "'"@
}

/// Splits a mode string into its access part (access letter, plus a trailing
/// `'+'` when one was seen) and its kind part (`"t"` or `"b"`, defaulting to
/// text).  Rejects a malformed string with the exact message owed for the
/// first offence found scanning left to right.
pub fn split_mode_string(mode_string: String) -> (r: Result<(String, String), String>)
    ensures
        r is Ok <==> mode_scan(mode_string@) is Accepted,
        r matches Ok(p) ==> {
            let m = mode_scan(mode_string@);
            &&& p.0@ == scan_access_chars(m)
            &&& p.1@ == seq![m->kind]
        },
        r matches Err(e) ==> {
            let m = mode_scan(mode_string@);
            &&& m is BadChar ==> e@ == invalid_mode_message(mode_string@)
            &&& m is MixedKind ==> e@ == "can't have text and binary mode at once"@
            &&& m is MultipleAccess ==> e@
                == "must have exactly one of create/read/write/append mode"@
            &&& m is MissingAccess ==> e@
                == "Must have exactly one of create/read/write/append mode and at most one plus"@
        },
{
    let s = mode_string.as_str();
    let n = s.unicode_len();
    let mut i: usize = 0;
    let mut access: Option<char> = None;
    let mut kind: Option<char> = None;
    let mut plus: bool = false;
    while i < n
        invariant
            n == mode_string@.len(),
            s@ == mode_string@,
            i <= n,
            access matches Some(a) ==> (a == 'a' || a == 'r' || a == 'w'),
            kind matches Some(k) ==> (k == 't' || k == 'b'),
            scan_mode(mode_string@, i as int, access, kind, plus) == mode_scan(mode_string@),
        decreases n - i,
    {
        let c = s.get_char(i);
        if c == '+' {
            if plus {
                return Err(bad_char_message(&mode_string));
            }
            plus = true;
        } else if c == 't' || c == 'b' {
            match kind {
                Some(k) => {
                    if k == c {
                        return Err(bad_char_message(&mode_string));
                    } else {
                        return Err(String::from_str("can't have text and binary mode at once"));
                    }
                },
                None => {
                    kind = Some(c);
                },
            }
        } else if c == 'a' || c == 'r' || c == 'w' {
            match access {
                Some(a) => {
                    if a == c {
                        return Err(bad_char_message(&mode_string));
                    } else {
                        return Err(
                            String::from_str(
                                "must have exactly one of create/read/write/append mode",
                            ),
                        );
                    }
                },
                None => {
                    access = Some(c);
                },
            }
        } else {
            return Err(bad_char_message(&mode_string));
        }
        i += 1;
    }
    match access {
        None => Err(
            String::from_str(
                "Must have exactly one of create/read/write/append mode and at most one plus",
            ),
        ),
        Some(a) => {
            let access_part: &str = if a == 'r' {
                if plus {
                    "r+"
                } else {
                    "r"
                }
            } else if a == 'w' {
                if plus {
                    "w+"
                } else {
                    "w"
                }
            } else {
                if plus {
                    "a+"
                } else {
                    "a"
                }
            };
            let kind_part: &str = match kind {
                Some(k) => if k == 'b' {
                    "b"
                } else {
                    "t"
                },
                None => "t",
            };
            proof {
                reveal_strlit("r+");
                reveal_strlit("r");
                reveal_strlit("w+");
                reveal_strlit("w");
                reveal_strlit("a+");
                reveal_strlit("a");
                reveal_strlit("b");
                reveal_strlit("t");
                assert(access_part@ =~= scan_access_chars(mode_scan(mode_string@)));
                assert(kind_part@ =~= seq![mode_scan(mode_string@)->kind]);
            }
            Ok((access_part.to_owned(), kind_part.to_owned()))
        },
    }
}

/// Builds the message `invalid mode: '<s>'`.
fn bad_char_message(mode_string: &String) -> (r: String)
    ensures
        r@ == invalid_mode_message(mode_string@),
{
    let mut r = String::from_str("invalid mode: '");
    r.append(mode_string.as_str());
    r.append("'");
    r
}

/// The message owed for a scan that found an offence.
pub open spec fn scan_error_message(m: ModeScan, s: Seq<char>) -> Seq<char>
    recommends
        !(m is Accepted),
{
    match m {
        ModeScan::MixedKind => "can't have text and binary mode at once"@,
        ModeScan::MultipleAccess => "must have exactly one of create/read/write/append mode"@,
        ModeScan::MissingAccess =>
            "Must have exactly one of create/read/write/append mode and at most one plus"@,
        _ => invalid_mode_message(s),
    }
}

/// An accepted scan carries an access letter from `{a, r, w}` and a kind
/// letter from `{t, b}`, whatever the string held.
pub proof fn lemma_scan_accepted_chars(
    s: Seq<char>,
    i: int,
    access: Option<char>,
    kind: Option<char>,
    plus: bool,
)
    requires
        access matches Some(a) ==> (a == 'a' || a == 'r' || a == 'w'),
        kind matches Some(k) ==> (k == 't' || k == 'b'),
        scan_mode(s, i, access, kind, plus) is Accepted,
    ensures
        ({
            let m = scan_mode(s, i, access, kind, plus);
            &&& (m->access == 'a' || m->access == 'r' || m->access == 'w')
            &&& (m->kind == 't' || m->kind == 'b')
        }),
    decreases s.len() - i,
{
    if i < 0 || i >= s.len() {
    } else {
        let c = s[i];
        if c == '+' {
            if !plus {
                lemma_scan_accepted_chars(s, i + 1, access, kind, true);
            }
        } else if c == 't' || c == 'b' {
            if kind is None {
                lemma_scan_accepted_chars(s, i + 1, access, Option::Some(c), plus);
            }
        } else if c == 'a' || c == 'r' || c == 'w' {
            if access is None {
                lemma_scan_accepted_chars(s, i + 1, Option::Some(c), kind, plus);
            }
        }
    }
}

/// Law: every mode string written as one access letter, then optionally a
/// plus, then optionally a kind letter, is accepted, and scans to that access
/// letter, that plus flag, and that kind letter (text when omitted).
pub proof fn lemma_well_formed_mode_accepted(access: char, plus: bool, kind: Option<char>)
    requires
        access == 'r' || access == 'w' || access == 'a',
        kind matches Some(k) ==> (k == 't' || k == 'b'),
    ensures
        ({
            let s = seq![access] + (if plus {
                seq!['+']
            } else {
                Seq::<char>::empty()
            }) + (match kind {
                Option::Some(k) => seq![k],
                Option::None => Seq::<char>::empty(),
            });
            mode_scan(s) == (ModeScan::Accepted {
                access,
                plus,
                kind: match kind {
                    Option::Some(k) => k,
                    Option::None => 't',
                },
            })
        }),
{
    let s = seq![access] + (if plus {
        seq!['+']
    } else {
        Seq::<char>::empty()
    }) + (match kind {
        Option::Some(k) => seq![k],
        Option::None => Seq::<char>::empty(),
    });
    assert(s[0] == access);
    assert(scan_mode(s, 0, Option::None, Option::None, false) == scan_mode(
        s,
        1,
        Option::Some(access),
        Option::None,
        false,
    ));
    if plus {
        assert(s[1] == '+');
        assert(scan_mode(s, 1, Option::Some(access), Option::None, false) == scan_mode(
            s,
            2,
            Option::Some(access),
            Option::None,
            true,
        ));
        match kind {
            Option::Some(k) => {
                assert(s[2] == k);
                assert(scan_mode(s, 2, Option::Some(access), Option::None, true) == scan_mode(
                    s,
                    3,
                    Option::Some(access),
                    Option::Some(k),
                    true,
                ));
                assert(s.len() == 3);
            },
            Option::None => {
                assert(s.len() == 2);
            },
        }
    } else {
        match kind {
            Option::Some(k) => {
                assert(s[1] == k);
                assert(scan_mode(s, 1, Option::Some(access), Option::None, false) == scan_mode(
                    s,
                    2,
                    Option::Some(access),
                    Option::Some(k),
                    false,
                ));
                assert(s.len() == 2);
            },
            Option::None => {
                assert(s.len() == 1);
            },
        }
    }
}

} // verus!
