//! Percent-encoding of a file-system path for use as a query-string value.
//!
//! Backslashes are normalized to forward slashes, and each character that
//! would disturb a query string (space, `#`, `%`, `&`, `+`, `=`, `?`) is
//! replaced by its percent-encoded form. Every other character passes
//! through unchanged.

use vstd::prelude::*;
use vstd::string::*;

verus! {

/// The characters that may not appear bare in a query-string value.
pub open spec fn is_reserved(c: char) -> bool {
    c == ' ' || c == '#' || c == '%' || c == '&' || c == '+' || c == '=' || c == '?'
}

/// What one character of the path becomes in the encoded output.
pub open spec fn encode_char(c: char) -> Seq<char> {
    if c == '\\' {
        seq!['/']
    } else if c == ' ' {
        seq!['%', '2', '0']
    } else if c == '#' {
        seq!['%', '2', '3']
    } else if c == '%' {
        seq!['%', '2', '5']
    } else if c == '&' {
        seq!['%', '2', '6']
    } else if c == '+' {
        seq!['%', '2', 'B']
    } else if c == '=' {
        seq!['%', '3', 'D']
    } else if c == '?' {
        seq!['%', '3', 'F']
    } else {
        seq![c]
    }
}

/// The encoded form of a whole path: each character's encoding, concatenated
/// in order.
pub open spec fn encode_path(s: Seq<char>) -> Seq<char>
    decreases s.len(),
{
    if s.len() == 0 {
        Seq::empty()
    } else {
        encode_path(s.drop_last()) + encode_char(s.last())
    }
}

/// Relies on String::push from std: appends exactly the one character.
#[verifier::external_body]
fn push_char(s: &mut String, c: char)
    ensures
        final(s)@ == old(s)@.push(c),
{
    s.push(c);
}

/// Appends the encoding of one path character to the output.
fn append_encoded_char(out: &mut String, c: char)
    ensures
        final(out)@ == old(out)@ + encode_char(c),
{
    if c == '\\' {
        out.append("/");
        proof {
            reveal_strlit("/");
            assert(("/")@ =~= encode_char('\\'));
        }
    } else if c == ' ' {
        out.append("%20");
        proof {
            reveal_strlit("%20");
            assert(("%20")@ =~= encode_char(' '));
        }
    } else if c == '#' {
        out.append("%23");
        proof {
            reveal_strlit("%23");
            assert(("%23")@ =~= encode_char('#'));
        }
    } else if c == '%' {
        out.append("%25");
        proof {
            reveal_strlit("%25");
            assert(("%25")@ =~= encode_char('%'));
        }
    } else if c == '&' {
        out.append("%26");
        proof {
            reveal_strlit("%26");
            assert(("%26")@ =~= encode_char('&'));
        }
    } else if c == '+' {
        out.append("%2B");
        proof {
            reveal_strlit("%2B");
            assert(("%2B")@ =~= encode_char('+'));
        }
    } else if c == '=' {
        out.append("%3D");
        proof {
            reveal_strlit("%3D");
            assert(("%3D")@ =~= encode_char('='));
        }
    } else if c == '?' {
        out.append("%3F");
        proof {
            reveal_strlit("%3F");
            assert(("%3F")@ =~= encode_char('?'));
        }
    } else {
        push_char(out, c);
        proof {
            assert(old(out)@.push(c) =~= old(out)@ + encode_char(c));
        }
    }
}

/// Encodes a file-system path so that it is safe as a single query-string
/// value: backslashes become forward slashes, reserved characters become
/// their percent-escapes, everything else is unchanged.
pub fn encode_image_path(path: &str) -> (r: String)
    ensures
        r@ == encode_path(path@),
{
    let n = path.unicode_len();
    let mut out = String::new();
    let mut i: usize = 0;
    proof {
        assert(path@.subrange(0, 0) =~= Seq::<char>::empty());
    }
    while i < n
        invariant
            n == path@.len(),
            i <= n,
            out@ == encode_path(path@.subrange(0, i as int)),
        decreases n - i,
    {
        let c = path.get_char(i);
        append_encoded_char(&mut out, c);
        proof {
            assert(path@.subrange(0, i + 1).drop_last() =~= path@.subrange(0, i as int));
            assert(path@.subrange(0, i + 1).last() == path@[i as int]);
        }
        i = i + 1;
    }
    proof {
        assert(path@.subrange(0, n as int) =~= path@);
    }
    out
}

/// How many times the character `c` occurs in `s`.
pub open spec fn char_count(s: Seq<char>, c: char) -> nat
    decreases s.len(),
{
    if s.len() == 0 {
        0
    } else {
        char_count(s.drop_last(), c) + (if s.last() == c {
            1nat
        } else {
            0nat
        })
    }
}

proof fn lemma_char_count_concat(a: Seq<char>, b: Seq<char>, c: char)
    ensures
        char_count(a + b, c) == char_count(a, c) + char_count(b, c),
    decreases b.len(),
{
    if b.len() == 0 {
        assert(a + b =~= a);
    } else {
        lemma_char_count_concat(a, b.drop_last(), c);
        assert((a + b).drop_last() =~= a + b.drop_last());
        assert((a + b).last() == b.last());
    }
}

proof fn lemma_char_count_block(x: char)
    ensures
        char_count(encode_char(x), '/') == (if x == '/' || x == '\\' {
            1nat
        } else {
            0nat
        }),
        forall|j: int| 0 <= j < encode_char(x).len() ==> encode_char(x)[j] != '\\',
{
    reveal_with_fuel(char_count, 5);
    if x == '\\' {
    } else if is_reserved(x) {
        let b = encode_char(x);
        assert(b.drop_last().drop_last() =~= seq!['%']);
        assert(seq!['%'].drop_last() =~= Seq::<char>::empty());
    } else {
        assert(encode_char(x).drop_last() =~= Seq::<char>::empty());
    }
}

/// Backslashes never appear in the encoder's output; a forward slash stands
/// in the place of each one, so the output's slash count is the input's
/// slash count plus the input's backslash count.
pub proof fn lemma_backslashes_become_slashes(s: Seq<char>)
    ensures
        forall|i: int| 0 <= i < encode_path(s).len() ==> encode_path(s)[i] != '\\',
        char_count(encode_path(s), '/') == char_count(s, '/') + char_count(s, '\\'),
    decreases s.len(),
{
    reveal_with_fuel(char_count, 2);
    if s.len() > 0 {
        lemma_backslashes_become_slashes(s.drop_last());
        lemma_char_count_concat(encode_path(s.drop_last()), encode_char(s.last()), '/');
        lemma_char_count_block(s.last());
        assert forall|i: int| 0 <= i < encode_path(s).len() implies encode_path(s)[i] != '\\' by {
            let t = encode_path(s.drop_last());
            if i < t.len() {
                assert(encode_path(s)[i] == t[i]);
            } else {
                assert(encode_path(s)[i] == encode_char(s.last())[i - t.len()]);
            }
        }
    }
}

/// Two characters that may follow a `%` in the encoder's output: together
/// with the `%` they form one of the escapes the encoder emits.
pub open spec fn escape_digits(a: char, b: char) -> bool {
    (a == '2' && (b == '0' || b == '3' || b == '5' || b == '6' || b == 'B')) || (a == '3' && (b
        == 'D' || b == 'F'))
}

/// A sequence is safe as a query-string value: the reserved characters other
/// than `%` never occur, and every `%` begins a three-character escape.
pub open spec fn query_safe(t: Seq<char>) -> bool {
    forall|i: int|
        0 <= i < t.len() ==> {
            &&& #[trigger] t[i] != ' '
            &&& t[i] != '#'
            &&& t[i] != '&'
            &&& t[i] != '+'
            &&& t[i] != '='
            &&& t[i] != '?'
            &&& (t[i] == '%' ==> i + 2 < t.len() && escape_digits(t[i + 1], t[i + 2]))
        }
}

/// No reserved character appears unescaped in the encoder's output.
pub proof fn lemma_output_query_safe(s: Seq<char>)
    ensures
        query_safe(encode_path(s)),
    decreases s.len(),
{
    if s.len() > 0 {
        lemma_output_query_safe(s.drop_last());
        let t = encode_path(s.drop_last());
        let b = encode_char(s.last());
        let out = encode_path(s);
        assert(out == t + b);
        assert forall|i: int|
            0 <= i < out.len() implies {
                &&& #[trigger] out[i] != ' '
                &&& out[i] != '#'
                &&& out[i] != '&'
                &&& out[i] != '+'
                &&& out[i] != '='
                &&& out[i] != '?'
                &&& (out[i] == '%' ==> i + 2 < out.len() && escape_digits(out[i + 1], out[i + 2]))
            } by {
            if i < t.len() {
                assert(out[i] == t[i]);
                if t[i] == '%' {
                    assert(i + 2 < t.len() && escape_digits(t[i + 1], t[i + 2]));
                    assert(out[i + 1] == t[i + 1]);
                    assert(out[i + 2] == t[i + 2]);
                }
            } else {
                let j = i - t.len();
                let x = s.last();
                assert(out[i] == b[j]);
                if x == '\\' {
                    assert(b =~= seq!['/']);
                } else if is_reserved(x) {
                    assert(b.len() == 3);
                    if j == 0 {
                        assert(out[i] == '%');
                        assert(out[i + 1] == b[1]);
                        assert(out[i + 2] == b[2]);
                        assert(escape_digits(b[1], b[2]));
                    }
                } else {
                    assert(b =~= seq![x]);
                }
            }
        }
    }
}

/// Encoding changes nothing on a path that holds no reserved character and
/// no backslash: the output equals the input.
pub proof fn lemma_plain_path_unchanged(s: Seq<char>)
    requires
        forall|i: int| 0 <= i < s.len() ==> !is_reserved(s[i]) && s[i] != '\\',
    ensures
        encode_path(s) == s,
    decreases s.len(),
{
    if s.len() == 0 {
        assert(encode_path(s) =~= s);
    } else {
        assert forall|i: int| 0 <= i < s.drop_last().len() implies !is_reserved(s.drop_last()[i])
            && s.drop_last()[i] != '\\' by {
            assert(s.drop_last()[i] == s[i]);
        }
        lemma_plain_path_unchanged(s.drop_last());
        assert(encode_char(s.last()) =~= seq![s.last()]);
        assert(encode_path(s) =~= s);
    }
}

} // verus!
