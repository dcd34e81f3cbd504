//! GitHub usernames: which ones the tool accepts, and the API address of a
//! user's public events.

use vstd::prelude::*;

verus! {

/// A character GitHub allows in a username: an ASCII letter or digit, or `-`.
pub open spec fn username_char(c: char) -> bool {
    ||| ('a' <= c && c <= 'z')
    ||| ('A' <= c && c <= 'Z')
    ||| ('0' <= c && c <= '9')
    ||| c == '-'
}

/// Two dashes stand at positions `i` and `i + 1` of `s`.
pub open spec fn double_dash_at(s: Seq<char>, i: int) -> bool {
    0 <= i && i + 1 < s.len() && s[i] == '-' && s[i + 1] == '-'
}

/// The rule for usernames: 1 to 39 bytes in UTF-8, only ASCII letters,
/// digits and dashes, no dash at either end, and no two dashes in a row.
pub open spec fn valid_username(s: Seq<char>) -> bool {
    &&& 1 <= vstd::utf8::encode_utf8(s).len() <= 39
    &&& forall|i: int| 0 <= i < s.len() ==> #[trigger] username_char(s[i])
    &&& !(s.len() > 0 && s[0] == '-')
    &&& !(s.len() > 0 && s[s.len() - 1] == '-')
    &&& forall|i: int| !#[trigger] double_dash_at(s, i)
}

/// Accepts `value` as a username, handing it back, or refuses it with the
/// message "Invalid GitHub username".
pub fn validate_username(value: &str) -> (res: Result<String, String>)
    ensures
        res matches Ok(s) ==> valid_username(value@) && s@ == value@,
        res matches Err(e) ==> !valid_username(value@) && e@ == "Invalid GitHub username"@,
{
    let n = value.unicode_len();
    let mut chars_ok = true;
    let mut no_double = true;
    let mut i: usize = 0;
    let mut prev_dash = false;
    while i < n
        invariant
            n == value@.len(),
            i <= n,
            prev_dash == (i > 0 && value@[i - 1] == '-'),
            chars_ok == forall|j: int| 0 <= j < i ==> #[trigger] username_char(value@[j]),
            no_double == forall|j: int| j + 1 < i ==> !#[trigger] double_dash_at(value@, j),
        decreases n - i,
    {
        let c = value.get_char(i);
        let c_ok = ('a' <= c && c <= 'z') || ('A' <= c && c <= 'Z') || ('0' <= c && c <= '9')
            || c == '-';
        if !c_ok {
            assert(!username_char(value@[i as int]));
            chars_ok = false;
        }
        if prev_dash && c == '-' {
            assert(double_dash_at(value@, i - 1));
            no_double = false;
        }
        proof {
            if no_double {
                assert forall|j: int| j + 1 < i + 1 implies !#[trigger] double_dash_at(
                    value@,
                    j,
                ) by {
                    if j + 1 == i && j >= 0 {
                        assert(value@[j + 1] == c);
                    }
                }
            }
        }
        prev_dash = c == '-';
        i = i + 1;
    }
    let edges_ok = n > 0 && value.get_char(0) != '-' && value.get_char(n - 1) != '-';
    let ok = chars_ok && no_double && 1 <= n && n <= 39 && edges_ok;
    proof {
        let s = value@;
        assert(no_double <==> forall|j: int| !#[trigger] double_dash_at(s, j));
        if chars_ok {
            assert(vstd::utf8::is_ascii_chars(s)) by {
                assert forall|j: int| 0 <= j < s.len() implies '\0' <= #[trigger] s[j] <= '\u{7f}' by {
                    assert(username_char(s[j]));
                }
            }
            vstd::utf8::is_ascii_chars_encode_utf8(s);
        }
    }
    if ok {
        Ok(String::from_str(value))
    } else {
        Err(String::from_str("Invalid GitHub username"))
    }
}

/// The username rule in terms of characters alone: a name is accepted
/// exactly when it has 1 to 39 characters, each an ASCII letter, an ASCII
/// digit or a dash (a digit may come first), it neither begins nor ends with
/// a dash, and no two dashes stand next to each other.
pub proof fn lemma_username_rule(s: Seq<char>)
    ensures
        valid_username(s) <==> {
            &&& 1 <= s.len() <= 39
            &&& forall|i: int|
                0 <= i < s.len() ==> ('a' <= #[trigger] s[i] <= 'z') || ('A' <= s[i] <= 'Z') || (
                '0' <= s[i] <= '9') || s[i] == '-'
            &&& s[0] != '-'
            &&& s[s.len() - 1] != '-'
            &&& forall|i: int, j: int|
                0 <= i && j == i + 1 && j < s.len() ==> !(#[trigger] s[i] == '-' && #[trigger] s[j]
                    == '-')
        },
{
    let chars_ok = forall|i: int| 0 <= i < s.len() ==> #[trigger] username_char(s[i]);
    if chars_ok {
        assert(vstd::utf8::is_ascii_chars(s)) by {
            assert forall|j: int| 0 <= j < s.len() implies '\0' <= #[trigger] s[j] <= '\u{7f}' by {
                assert(username_char(s[j]));
            }
        }
        vstd::utf8::is_ascii_chars_encode_utf8(s);
    }
    assert((forall|i: int| !#[trigger] double_dash_at(s, i)) <==> (forall|i: int, j: int|
        0 <= i && j == i + 1 && j < s.len() ==> !(#[trigger] s[i] == '-' && #[trigger] s[j] == '-')))
        by {
        if forall|i: int| !#[trigger] double_dash_at(s, i) {
            assert forall|i: int, j: int| 0 <= i && j == i + 1 && j < s.len() implies !(
            #[trigger] s[i] == '-' && #[trigger] s[j] == '-') by {
                assert(!double_dash_at(s, i));
            }
        }
    }
    assert(chars_ok <==> forall|i: int|
        0 <= i < s.len() ==> ('a' <= #[trigger] s[i] <= 'z') || ('A' <= s[i] <= 'Z') || ('0' <= s[i]
            <= '9') || s[i] == '-') by {
        if chars_ok {
            assert forall|i: int| 0 <= i < s.len() implies ('a' <= #[trigger] s[i] <= 'z') || ('A'
                <= s[i] <= 'Z') || ('0' <= s[i] <= '9') || s[i] == '-' by {
                assert(username_char(s[i]));
            }
        } else {
            let k = choose|k: int| 0 <= k < s.len() && !#[trigger] username_char(s[k]);
            assert(!(('a' <= s[k] <= 'z') || ('A' <= s[k] <= 'Z') || ('0' <= s[k] <= '9') || s[k] == '-'));
        }
    }
    if valid_username(s) {
        assert(s.len() > 0) by {
            if s.len() == 0 {
                assert(vstd::utf8::encode_utf8(s).len() == 0) by {
                    assert(s =~= Seq::<char>::empty());
                    reveal_with_fuel(vstd::utf8::encode_utf8, 1);
                }
            }
        }
    }
}

/// The address of the public events of `username` in the GitHub REST API.
pub open spec fn events_address(username: Seq<char>) -> Seq<char> {
    "https://api.github.com/users/"@ + username + "/events"@
}

/// Builds the address that lists the public events of `username`.
pub fn events_url(username: &str) -> (res: String)
    ensures
        res@ == events_address(username@),
{
    let url = String::from_str("https://api.github.com/users/");
    let url = url.concat(username);
    url.concat("/events")
}

} // verus!
