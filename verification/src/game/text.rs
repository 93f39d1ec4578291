use vstd::prelude::*;
use vstd::utf8::encode_utf8;

use crate::identity::{d20_id_byte, valid_d20_id_bytes, D20Id};

verus! {

/// Whether a byte separates the words of an identity: `-`, `.` or `/`.
pub open spec fn word_break(byte: u8) -> bool {
    byte == 45 || byte == 46 || byte == 47
}

/// The capital of a lower-case ASCII letter; other bytes stay.
pub open spec fn capital(byte: u8) -> u8 {
    if 97 <= byte <= 122 {
        (byte - 32) as u8
    } else {
        byte
    }
}

/// The words of a text: its maximal runs of bytes without a word break.
pub open spec fn words(text: Seq<u8>) -> Seq<Seq<u8>>
    decreases text.len(),
{
    if text.len() == 0 {
        Seq::empty()
    } else {
        let earlier = words(text.drop_last());
        let last = text.last();
        if word_break(last) {
            earlier
        } else if text.len() > 1 && !word_break(text[text.len() - 2]) {
            earlier.update(earlier.len() - 1, earlier.last().push(last))
        } else {
            earlier.push(seq![last])
        }
    }
}

/// A word with its first letter capitalized.
pub open spec fn capitalized(word: Seq<u8>) -> Seq<u8> {
    if word.len() == 0 {
        word
    } else {
        seq![capital(word[0])] + word.drop_first()
    }
}

/// Words joined by single spaces.
pub open spec fn joined(words: Seq<Seq<u8>>) -> Seq<u8>
    decreases words.len(),
{
    if words.len() == 0 {
        Seq::empty()
    } else if words.len() == 1 {
        words[0]
    } else {
        joined(words.drop_last()) + seq![32u8] + words.last()
    }
}

/// The readable form of a text: its words, capitalized, joined by spaces.
pub open spec fn humanized(text: Seq<u8>) -> Seq<u8> {
    joined(words(text).map_values(|word: Seq<u8>| capitalized(word)))
}

/// The characters of ASCII bytes.
pub open spec fn ascii_text(bytes: Seq<u8>) -> Seq<char> {
    bytes.map_values(|b: u8| b as char)
}

/// The text of ASCII bytes (std's `String::from_utf8`, which accepts them
/// as the characters they encode).
#[verifier::external_body]
fn text_from_ascii(bytes: Vec<u8>) -> (text: String)
    requires
        forall|i: int| 0 <= i < bytes@.len() ==> bytes@[i] < 128,
    ensures
        text@ == ascii_text(bytes@),
{
    match String::from_utf8(bytes) {
        Ok(text) => text,
        Err(_) => String::new(),
    }
}

/// Every word is nonempty, and when the text does not end in a break its
/// last word is the run it ends with.
proof fn lemma_words_shape(text: Seq<u8>)
    ensures
        forall|k: int| 0 <= k < words(text).len() ==> (#[trigger] words(text)[k]).len() > 0,
        text.len() > 0 && !word_break(text.last()) ==> words(text).len() > 0,
    decreases text.len(),
{
    if text.len() > 0 {
        lemma_words_shape(text.drop_last());
        let earlier = words(text.drop_last());
        if !word_break(text.last()) && text.len() > 1 && !word_break(text[text.len() - 2]) {
            assert(text.drop_last().last() == text[text.len() - 2]);
        }
    }
}

/// Joining after extending the last word extends the join.
proof fn lemma_joined_extend(ws: Seq<Seq<u8>>, byte: u8)
    requires
        ws.len() > 0,
    ensures
        joined(ws.update(ws.len() - 1, ws.last().push(byte))) == joined(ws).push(byte),
{
    let extended = ws.update(ws.len() - 1, ws.last().push(byte));
    assert(extended.drop_last() =~= ws.drop_last());
    if ws.len() == 1 {
        assert(extended[0] == ws[0].push(byte));
    } else {
        assert(joined(extended) == joined(ws.drop_last()) + seq![32u8] + ws.last().push(byte));
        assert(joined(ws.drop_last()) + seq![32u8] + ws.last().push(byte) =~= (joined(
            ws.drop_last(),
        ) + seq![32u8] + ws.last()).push(byte));
    }
}

/// Words whose last one is nonempty join into a nonempty text.
proof fn lemma_joined_nonempty(ws: Seq<Seq<u8>>)
    requires
        ws.len() > 0,
        ws.last().len() > 0,
    ensures
        joined(ws).len() > 0,
{
}

/// Joining after adding a word appends a space and the word.
proof fn lemma_joined_push(ws: Seq<Seq<u8>>, word: Seq<u8>)
    ensures
        joined(ws.push(word)) == if ws.len() == 0 {
            word
        } else {
            joined(ws) + seq![32u8] + word
        },
{
    assert(ws.push(word).drop_last() =~= ws);
}

/// The readable form of an identity: its words split at `-`, `.` and `/`,
/// each capitalized, joined by single spaces ("iron-warden" reads "Iron
/// Warden").
pub fn humanize(id: &D20Id) -> (text: String)
    ensures
        text@ == ascii_text(humanized(encode_utf8(id@))),
{
    let source = id.as_str().as_bytes();
    let ghost bytes = source@;
    let mut out: Vec<u8> = Vec::new();
    let mut in_word = false;
    let mut index: usize = 0;
    proof {
        assert(bytes.take(0) =~= Seq::<u8>::empty());
    }
    while index < source.len()
        invariant
            0 <= index <= bytes.len(),
            bytes == source@,
            valid_d20_id_bytes(bytes),
            in_word == (index > 0 && !word_break(bytes[index - 1])),
            out@ == joined(words(bytes.take(index as int)).map_values(|word: Seq<u8>| capitalized(word))),
            forall|i: int| 0 <= i < out@.len() ==> out@[i] < 128,
        decreases bytes.len() - index,
    {
        let byte = source[index];
        let ghost prefix = bytes.take(index as int);
        let ghost next = bytes.take(index + 1);
        let ghost before = words(prefix);
        proof {
            assert(next.drop_last() =~= prefix);
            assert(next.last() == byte);
            assert(d20_id_byte(bytes[index as int]));
            lemma_words_shape(prefix);
            if index > 0 {
                assert(next[next.len() - 2] == bytes[index - 1]);
                assert(prefix.last() == bytes[index - 1]);
            }
        }
        let is_break = byte == 45u8 || byte == 46u8 || byte == 47u8;
        if is_break {
            in_word = false;
        } else if in_word {
            let ghost caps = before.map_values(|word: Seq<u8>| capitalized(word));
            proof {
                let extended = before.update(before.len() - 1, before.last().push(byte));
                assert(before.last().len() > 0);
                assert(before.last().push(byte).drop_first() =~= before.last().drop_first().push(byte));
                assert(capitalized(before.last().push(byte)) =~= capitalized(before.last()).push(byte));
                assert(extended.map_values(|word: Seq<u8>| capitalized(word)) =~= caps.update(
                    caps.len() - 1,
                    caps.last().push(byte),
                ));
                lemma_joined_extend(caps, byte);
            }
            out.push(byte);
        } else {
            let ghost caps = before.map_values(|word: Seq<u8>| capitalized(word));
            let upper: u8 = if 97u8 <= byte && byte <= 122u8 {
                byte - 32
            } else {
                byte
            };
            proof {
                assert(before.push(seq![byte]).map_values(|word: Seq<u8>| capitalized(word))
                    =~= caps.push(seq![upper]));
                if caps.len() > 0 {
                    assert(before.last().len() > 0);
                    assert(caps.last() == capitalized(before.last()));
                    lemma_joined_nonempty(caps);
                }
                lemma_joined_push(caps, seq![upper]);
                if index > 0 {
                    assert(word_break(prefix.last()));
                }
            }
            if out.len() > 0 {
                out.push(32u8);
            }
            out.push(upper);
            proof {
                if caps.len() == 0 {
                    assert(out@ =~= seq![upper]);
                } else {
                    assert(out@ =~= joined(caps) + seq![32u8] + seq![upper]);
                }
            }
            in_word = true;
        }
        index = index + 1;
    }
    proof {
        assert(bytes.take(bytes.len() as int) =~= bytes);
    }
    text_from_ascii(out)
}

} // verus!
