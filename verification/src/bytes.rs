//! Texts cut to a number of bytes. Lengths count the bytes of the UTF-8
//! encoding; a cut never falls inside a char.

use vstd::prelude::*;
use vstd::string::{StringExecFns, StringSliceAdditionalSpecFns};
use vstd::utf8::{
    char_is_scalar, decode_utf8, encode_scalar, encode_utf8, encode_utf8_first_scalar,
    is_char_boundary, length_of_first_scalar, pop_first_scalar, valid_utf8,
};

verus! {

/// The largest position not above `limit` at which a char begins in the
/// encoded text `bytes`; 0 where there is no other.
pub open spec fn floor_boundary(bytes: Seq<u8>, limit: int) -> int
    decreases limit,
{
    if limit <= 0 {
        0
    } else if is_char_boundary(bytes, limit) {
        limit
    } else {
        floor_boundary(bytes, limit - 1)
    }
}

/// The longest run of whole chars at the start of `s` that takes at most
/// `limit` bytes in UTF-8: `s` itself where it is no longer, else what its
/// encoding holds before the largest char boundary not above `limit`.
pub open spec fn byte_prefix(s: Seq<char>, limit: nat) -> Seq<char> {
    let bytes = encode_utf8(s);
    if limit >= bytes.len() {
        s
    } else {
        decode_utf8(bytes.subrange(0, floor_boundary(bytes, limit as int)))
    }
}

/// The encoding of two texts in a row is the two encodings in a row.
pub proof fn lemma_encode_concat(a: Seq<char>, b: Seq<char>)
    ensures
        encode_utf8(a + b) == encode_utf8(a) + encode_utf8(b),
    decreases a.len(),
{
    if a.len() == 0 {
        assert(a + b =~= b);
        assert(encode_utf8(a) + encode_utf8(b) =~= encode_utf8(b));
    } else {
        assert((a + b).drop_first() =~= a.drop_first() + b);
        lemma_encode_concat(a.drop_first(), b);
        assert(encode_utf8(a + b) =~= encode_utf8(a) + encode_utf8(b));
    }
}

proof fn lemma_encoded_prefix(s: Seq<char>, n: int)
    requires
        0 <= n <= s.len(),
    ensures
        encode_utf8(s) == encode_utf8(s.take(n)) + encode_utf8(s.skip(n)),
        encode_utf8(s.take(n)).len() <= encode_utf8(s).len(),
        encode_utf8(s).subrange(0, encode_utf8(s.take(n)).len() as int) == encode_utf8(s.take(n)),
{
    assert(s =~= s.take(n) + s.skip(n));
    lemma_encode_concat(s.take(n), s.skip(n));
    assert(encode_utf8(s).subrange(0, encode_utf8(s.take(n)).len() as int) =~= encode_utf8(
        s.take(n),
    ));
}

proof fn lemma_peel_first(s: Seq<char>, n: int)
    requires
        0 < n <= s.len(),
    ensures
        valid_utf8(encode_utf8(s)),
        length_of_first_scalar(encode_utf8(s)) == encode_scalar(s[0] as u32).len(),
        1 <= encode_scalar(s[0] as u32).len() <= 4,
        pop_first_scalar(encode_utf8(s)) == encode_utf8(s.drop_first()),
        encode_utf8(s.take(n)).len() == encode_scalar(s[0] as u32).len() + encode_utf8(
            s.drop_first().take(n - 1),
        ).len(),
{
    broadcast use vstd::utf8::group_utf8_lib;

    encode_utf8_first_scalar(s);
    assert(pop_first_scalar(encode_utf8(s)) =~= encode_utf8(s.drop_first()));
    assert(s.take(n).drop_first() =~= s.drop_first().take(n - 1));
    assert(s.take(n)[0] == s[0]);
}

proof fn lemma_boundary_after_chars(s: Seq<char>, n: int)
    requires
        0 <= n <= s.len(),
    ensures
        is_char_boundary(encode_utf8(s), encode_utf8(s.take(n)).len() as int),
    decreases n,
{
    broadcast use vstd::utf8::group_utf8_lib;

    let bytes = encode_utf8(s);
    assert(valid_utf8(bytes));
    if n == 0 {
        assert(s.take(0) =~= Seq::<char>::empty());
    } else {
        lemma_peel_first(s, n);
        lemma_encoded_prefix(s, n);
        lemma_boundary_after_chars(s.drop_first(), n - 1);
    }
}

proof fn lemma_no_boundary_inside_char(s: Seq<char>, n: int, at: int)
    requires
        0 <= n < s.len(),
        encode_utf8(s.take(n)).len() < at < encode_utf8(s.take(n + 1)).len(),
    ensures
        !is_char_boundary(encode_utf8(s), at),
    decreases n,
{
    broadcast use vstd::utf8::group_utf8_lib;

    let bytes = encode_utf8(s);
    assert(valid_utf8(bytes));
    lemma_peel_first(s, n + 1);
    lemma_encoded_prefix(s, n + 1);
    if n == 0 {
        assert(s.take(0) =~= Seq::<char>::empty());
        reveal_with_fuel(is_char_boundary, 2);
    } else {
        lemma_peel_first(s, n);
        lemma_no_boundary_inside_char(
            s.drop_first(),
            n - 1,
            at - encode_scalar(s[0] as u32).len(),
        );
    }
}

proof fn lemma_floor_boundary_in_char(s: Seq<char>, n: int, limit: int)
    requires
        0 <= n < s.len(),
        encode_utf8(s.take(n)).len() <= limit < encode_utf8(s.take(n + 1)).len(),
    ensures
        floor_boundary(encode_utf8(s), limit) == encode_utf8(s.take(n)).len(),
    decreases limit,
{
    if limit == encode_utf8(s.take(n)).len() {
        lemma_boundary_after_chars(s, n);
    } else {
        lemma_no_boundary_inside_char(s, n, limit);
        lemma_floor_boundary_in_char(s, n, limit - 1);
    }
}

/// The number of bytes that a char takes in UTF-8.
pub open spec fn char_width(c: char) -> nat {
    let code = c as u32;
    if code <= 0x7F {
        1
    } else if code <= 0x7FF {
        2
    } else if code <= 0xFFFF {
        3
    } else {
        4
    }
}

/// The number of bytes that a text takes in UTF-8.
pub open spec fn byte_len(s: Seq<char>) -> nat
    decreases s.len(),
{
    if s.len() == 0 {
        0
    } else {
        byte_len(s.drop_last()) + char_width(s.last())
    }
}

/// The encoding of a text is as long as the widths of its chars add up to.
pub proof fn lemma_byte_len(s: Seq<char>)
    ensures
        encode_utf8(s).len() == byte_len(s),
    decreases s.len(),
{
    broadcast use vstd::utf8::group_utf8_lib;

    if s.len() > 0 {
        let last = seq![s.last()];
        assert(s =~= s.drop_last() + last);
        lemma_encode_concat(s.drop_last(), last);
        lemma_byte_len(s.drop_last());
        assert(last.drop_first() =~= Seq::<char>::empty());
        assert(encode_utf8(last) =~= encode_scalar(s.last() as u32)) by {
            reveal_with_fuel(encode_utf8, 2);
        }
        assert(encode_scalar(s.last() as u32).len() == char_width(s.last())) by {
            char_is_scalar(s.last());
        }
    }
}

/// Cutting at a number of bytes keeps the longest run of whole chars that
/// fits: where the first `n` chars of a text take at most `limit` bytes and
/// the first `n + 1` take more, the cut gives exactly the first `n` chars.
pub proof fn lemma_byte_prefix_keeps_whole_chars(s: Seq<char>, limit: nat, n: int)
    requires
        0 <= n < s.len(),
        byte_len(s.take(n)) <= limit < byte_len(s.take(n + 1)),
    ensures
        byte_prefix(s, limit) == s.take(n),
{
    broadcast use vstd::utf8::group_utf8_lib;

    lemma_byte_len(s.take(n));
    lemma_byte_len(s.take(n + 1));
    lemma_encoded_prefix(s, n);
    lemma_encoded_prefix(s, n + 1);
    lemma_floor_boundary_in_char(s, n, limit as int);
    assert(decode_utf8(encode_utf8(s.take(n))) == s.take(n));
}

proof fn lemma_floor_boundary(bytes: Seq<u8>, limit: int)
    requires
        valid_utf8(bytes),
        0 <= limit,
    ensures
        0 <= floor_boundary(bytes, limit) <= limit,
        is_char_boundary(bytes, floor_boundary(bytes, limit)),
    decreases limit,
{
    broadcast use vstd::utf8::group_utf8_lib;

    if limit > 0 && !is_char_boundary(bytes, limit) {
        lemma_floor_boundary(bytes, limit - 1);
    }
}

/// What is kept of a text that is cut at a number of bytes never takes more
/// than that many bytes.
pub proof fn lemma_byte_prefix_fits(s: Seq<char>, limit: nat)
    ensures
        byte_len(byte_prefix(s, limit)) <= limit,
{
    broadcast use vstd::utf8::group_utf8_lib;

    let bytes = encode_utf8(s);
    lemma_byte_len(s);
    if limit < bytes.len() {
        lemma_floor_boundary(bytes, limit as int);
        let cut = floor_boundary(bytes, limit as int);
        let head = bytes.subrange(0, cut);
        assert(valid_utf8(head));
        assert(encode_utf8(decode_utf8(head)) == head);
        lemma_byte_len(decode_utf8(head));
    }
}

/// A shortened text fits where the kept bytes leave room for the three
/// dots.
pub proof fn lemma_shortened_fits(s: Seq<char>, longest: nat, kept: nat)
    requires
        kept + 3 <= longest,
    ensures
        byte_len(shortened(s, longest, kept)) <= longest,
{
    lemma_byte_len(s);
    if encode_utf8(s).len() > longest {
        reveal_strlit("...");
        lemma_byte_prefix_fits(s, kept);
        lemma_encode_concat(byte_prefix(s, kept), "..."@);
        lemma_byte_len(byte_prefix(s, kept) + "..."@);
        lemma_byte_len(byte_prefix(s, kept));
        lemma_byte_len("..."@);
        assert(byte_len("..."@) == 3) by {
            reveal_with_fuel(byte_len, 4);
            assert("..."@ =~= seq!['.', '.', '.']);
        }
    }
}

/// A text that takes no more than `limit` bytes is kept whole.
pub proof fn lemma_byte_prefix_of_short_text(s: Seq<char>, limit: nat)
    requires
        byte_len(s) <= limit,
    ensures
        byte_prefix(s, limit) == s,
{
    lemma_byte_len(s);
}

/// `s` as it is shown where at most `longest` bytes fit: a longer text is
/// cut to the whole chars of its first `kept` bytes and three dots.
pub open spec fn shortened(s: Seq<char>, longest: nat, kept: nat) -> Seq<char> {
    if encode_utf8(s).len() > longest {
        byte_prefix(s, kept) + "..."@
    } else {
        s
    }
}

/// The start of a text up to `limit` bytes. Where byte `limit` falls inside
/// a char, the cut moves back to the start of that char, so the result is
/// always whole chars.
pub fn first_bytes<'a>(s: &'a str, limit: usize) -> (out: &'a str)
    ensures
        out@ == byte_prefix(s@, limit as nat),
{
    broadcast use vstd::utf8::group_utf8_lib;

    let len = s.as_bytes().len();
    if limit >= len {
        s
    } else {
        let mut cut: usize = limit;
        while !s.is_char_boundary(cut)
            invariant
                cut <= limit < len,
                len == s.spec_bytes().len(),
                floor_boundary(s.spec_bytes(), limit as int) == floor_boundary(
                    s.spec_bytes(),
                    cut as int,
                ),
            decreases cut,
        {
            proof {
                broadcast use vstd::utf8::group_utf8_lib;

                assert(valid_utf8(encode_utf8(s@)));
                assert(is_char_boundary(s.spec_bytes(), 0));
            }
            cut -= 1;
        }
        let (head, _) = s.split_at(cut);
        head
    }
}

/// Shows a text where at most `longest` bytes fit: a longer one is cut to
/// the whole chars of its first `kept` bytes and three dots.
pub fn shorten(s: &str, longest: usize, kept: usize) -> (out: String)
    ensures
        out@ == shortened(s@, longest as nat, kept as nat),
{
    if s.as_bytes().len() > longest {
        let mut out = String::from_str(first_bytes(s, kept));
        out.append("...");
        out
    } else {
        String::from_str(s)
    }
}

} // verus!
