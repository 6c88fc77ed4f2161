//! Text building blocks of the query strings: decimal rendering of counts,
//! the minimal percent-encoding applied to free text, and delimiter-joined
//! lists.
use vstd::prelude::*;
use vstd::string::*;

verus! {

/// The character that separates the values of a list parameter.
pub const LIST_DELIMITER: char = ';';

/// The decimal digit that stands for `d`; only values below ten are digits.
pub open spec fn digit_char(d: nat) -> char {
    if d == 0 {
        '0'
    } else if d == 1 {
        '1'
    } else if d == 2 {
        '2'
    } else if d == 3 {
        '3'
    } else if d == 4 {
        '4'
    } else if d == 5 {
        '5'
    } else if d == 6 {
        '6'
    } else if d == 7 {
        '7'
    } else if d == 8 {
        '8'
    } else {
        '9'
    }
}

/// The decimal numeral of `n`, most significant digit first, without padding.
pub open spec fn decimal(n: nat) -> Seq<char>
    decreases n,
{
    if n < 10 {
        seq![digit_char(n)]
    } else {
        decimal(n / 10).push(digit_char(n % 10))
    }
}

/// What one character of free text becomes on the wire: a space becomes the
/// three characters `%20`, every other character stands for itself.
pub open spec fn encode_char(c: char) -> Seq<char> {
    if c == ' ' {
        seq!['%', '2', '0']
    } else {
        seq![c]
    }
}

/// Free text with each space percent-encoded and every other character
/// passed through.
pub open spec fn encode_spaces(text: Seq<char>) -> Seq<char>
    decreases text.len(),
{
    if text.len() == 0 {
        Seq::empty()
    } else {
        encode_spaces(text.drop_last()) + encode_char(text.last())
    }
}

/// The values of a list written one after another with `delimiter` between
/// neighbours: none before the first value and none after the last.
pub open spec fn join(values: Seq<Seq<char>>, delimiter: char) -> Seq<char>
    decreases values.len(),
{
    if values.len() == 0 {
        Seq::empty()
    } else if values.len() == 1 {
        values[0]
    } else {
        join(values.drop_last(), delimiter).push(delimiter) + values.last()
    }
}

/// The texts held by a sequence of strings, in order.
pub open spec fn texts(strings: Seq<String>) -> Seq<Seq<char>> {
    Seq::new(strings.len(), |i: int| strings[i]@)
}

/// Encoded free text holds no space, whatever the input.
pub proof fn lemma_encoded_has_no_space(text: Seq<char>)
    ensures
        !encode_spaces(text).contains(' '),
    decreases text.len(),
{
    if text.len() > 0 {
        lemma_encoded_has_no_space(text.drop_last());
        let head = encode_spaces(text.drop_last());
        let tail = encode_char(text.last());
        assert forall|i: int| 0 <= i < (head + tail).len() implies (head + tail)[i] != ' ' by {
            if i < head.len() {
                assert(head.contains(head[i]));
            }
        }
    }
}

/// Text without a space is its own encoding.
pub proof fn lemma_encoding_keeps_spaceless_text(text: Seq<char>)
    requires
        !text.contains(' '),
    ensures
        encode_spaces(text) == text,
    decreases text.len(),
{
    if text.len() > 0 {
        let front = text.drop_last();
        assert forall|i: int| 0 <= i < front.len() implies front[i] != ' ' by {
            assert(text.contains(text[i]));
        }
        assert(text.contains(text.last()));
        lemma_encoding_keeps_spaceless_text(front);
        assert(front + seq![text.last()] =~= text);
    }
}

/// Appends one character to the end of `out`.
///
/// Calls `String::push`. The contract is taken on trust from what the
/// standard library documents of it: the character is appended at the end,
/// and what the string held before stays in place in front of it.
#[verifier::external_body]
pub(crate) fn push_char(out: &mut String, c: char)
    ensures
        final(out)@ == old(out)@.push(c),
{
    out.push(c)
}

/// The exec counterpart of [`digit_char`].
fn digit(d: usize) -> (c: char)
    requires
        d < 10,
    ensures
        c == digit_char(d as nat),
{
    if d == 0 {
        '0'
    } else if d == 1 {
        '1'
    } else if d == 2 {
        '2'
    } else if d == 3 {
        '3'
    } else if d == 4 {
        '4'
    } else if d == 5 {
        '5'
    } else if d == 6 {
        '6'
    } else if d == 7 {
        '7'
    } else if d == 8 {
        '8'
    } else {
        '9'
    }
}

/// Appends the decimal numeral of `n` to `out`.
pub fn append_decimal(out: &mut String, n: usize)
    ensures
        final(out)@ == old(out)@ + decimal(n as nat),
    decreases n,
{
    if n >= 10 {
        append_decimal(out, n / 10);
    }
    let ghost before = out@;
    push_char(out, digit(n % 10));
    proof {
        if n >= 10 {
            assert(before.push(digit_char((n % 10) as nat)) =~= old(out)@ + decimal(n as nat));
        } else {
            assert(before.push(digit_char(n as nat)) =~= old(out)@ + decimal(n as nat));
        }
    }
}

/// Appends `text` to `out` with its spaces percent-encoded.
pub fn append_encoded(out: &mut String, text: &str)
    ensures
        final(out)@ == old(out)@ + encode_spaces(text@),
{
    let chars = text.chars();
    for c in it: chars
        invariant
            it.seq() == text@,
            out@ == old(out)@ + encode_spaces(text@.take(it.index())),
    {
        let ghost before = out@;
        proof {
            let i = it.index();
            assert(text@.take(i + 1).drop_last() =~= text@.take(i));
            assert(text@.take(i + 1).last() == c);
        }
        if c == ' ' {
            push_char(out, '%');
            push_char(out, '2');
            push_char(out, '0');
            assert(out@ =~= before + seq!['%', '2', '0']);
        } else {
            push_char(out, c);
            assert(out@ =~= before + seq![c]);
        }
        assert(out@ =~= old(out)@ + encode_spaces(text@.take(it.index() + 1)));
    }
    proof {
        assert(text@.take(text@.len() as int) =~= text@);
    }
}

/// Appends the values of `values` to `out`, joined by [`LIST_DELIMITER`].
pub fn append_joined(out: &mut String, values: &Vec<String>)
    ensures
        final(out)@ == old(out)@ + join(texts(values@), LIST_DELIMITER),
{
    let ghost all = texts(values@);
    let mut i: usize = 0;
    while i < values.len()
        invariant
            i <= values.len(),
            all == texts(values@),
            out@ == old(out)@ + join(all.take(i as int), LIST_DELIMITER),
        decreases values.len() - i,
    {
        let ghost before = out@;
        proof {
            assert(all.take(i + 1).drop_last() =~= all.take(i as int));
            assert(all.take(i + 1).last() == values@[i as int]@);
        }
        if i > 0 {
            push_char(out, LIST_DELIMITER);
        }
        out.append(values[i].as_str());
        proof {
            if i == 0 {
                assert(all.take(1)[0] == values@[0]@);
                assert(join(all.take(0), LIST_DELIMITER) =~= Seq::<char>::empty());
                assert(out@ =~= old(out)@ + join(all.take(1), LIST_DELIMITER));
            } else {
                assert(out@ =~= old(out)@ + join(all.take(i + 1), LIST_DELIMITER));
            }
        }
        i += 1;
    }
    proof {
        assert(all.take(values.len() as int) =~= all);
    }
}

} // verus!
