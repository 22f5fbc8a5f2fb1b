use vstd::prelude::*;

use crate::scheduler::{occurrence_stream_name, recurrence_occurrence_stream, RecurrenceId};
use crate::text::{
    all_digits, decimal, digits_value, find_char, is_blank, lemma_decimal_digits,
    parse_decimal_u64, rfind_char, str_equals, strip_prefix,
};
use vstd::utf8::encode_utf8;

verus! {

/// `stream` is the name of the stream of occurrence `offset` of recurrence `id`.
pub open spec fn names_occurrence(stream: Seq<char>, id: Seq<char>, offset: u64) -> bool {
    !is_blank(id) && occurrence_stream_name(id, offset) == stream
}

/// The coordinates that follow the fixed prefix of an occurrence stream's name.
spec fn coordinates(id: Seq<char>, offset: u64) -> Seq<char> {
    decimal((encode_utf8(id).len() as usize) as nat) + ":"@ + id + ":"@ + decimal(offset as nat)
}

/// Where the separators of an occurrence stream's name stand: the byte length
/// and the offset are digits, so the first colon after the prefix ends the
/// length and the last colon starts the offset, whatever the identifier holds.
proof fn lemma_occurrence_name_layout(id: Seq<char>, offset: u64)
    ensures
        "recurrence-occurrence:"@.len() == 22,
        occurrence_stream_name(id, offset) == "recurrence-occurrence:"@ + coordinates(id, offset),
        ({
            let len_text = decimal((encode_utf8(id).len() as usize) as nat);
            let off_text = decimal(offset as nat);
            let rest = coordinates(id, offset);
            &&& rest.len() == len_text.len() + id.len() + off_text.len() + 2
            &&& forall|j: int| 0 <= j < len_text.len() ==> rest[j] != ':'
            &&& rest[len_text.len() as int] == ':'
            &&& forall|j: int| rest.len() - off_text.len() <= j < rest.len() ==> rest[j] != ':'
            &&& rest[rest.len() - off_text.len() - 1] == ':'
            &&& rest.subrange(len_text.len() + 1int, rest.len() - off_text.len() - 1) == id
            &&& rest.subrange(rest.len() - off_text.len(), rest.len() as int) == off_text
            &&& all_digits(off_text)
            &&& off_text.len() > 0
            &&& digits_value(off_text) == offset
        }),
{
    reveal_strlit("recurrence-occurrence:");
    reveal_strlit(":");
    let len_text = decimal((encode_utf8(id).len() as usize) as nat);
    let off_text = decimal(offset as nat);
    lemma_decimal_digits((encode_utf8(id).len() as usize) as nat);
    lemma_decimal_digits(offset as nat);
    let rest = coordinates(id, offset);
    assert(occurrence_stream_name(id, offset) =~= "recurrence-occurrence:"@ + rest);
    let a = len_text.len() as int;
    let b = rest.len() - off_text.len();
    assert forall|j: int| 0 <= j < a implies rest[j] != ':' by {
        assert(rest[j] == len_text[j]);
    }
    assert(rest[a] == ':');
    assert forall|j: int| b <= j < rest.len() implies rest[j] != ':' by {
        assert(rest[j] == off_text[j - b]);
    }
    assert(rest[b - 1] == ':');
    assert(rest.subrange(a + 1, b - 1) =~= id);
    assert(rest.subrange(b, rest.len() as int) =~= off_text);
}

/// Reads the recurrence and the offset back from the name of an occurrence
/// stream. Exactly the names that `recurrence_occurrence_stream` gives are
/// accepted, each with the coordinates it was made from.
pub fn parse_recurrence_occurrence_stream(stream_id: &str) -> (r: Option<(RecurrenceId, u64)>)
    ensures
        r matches Some((id, offset)) ==> names_occurrence(stream_id@, id@, offset),
        forall|id: Seq<char>, offset: u64| #[trigger]
            names_occurrence(stream_id@, id, offset) ==> (r matches Some((rid, roff)) && rid@
                == id && roff == offset),
{
    proof {
        reveal_strlit("recurrence-occurrence:");
    }
    let rest = match strip_prefix(stream_id, "recurrence-occurrence:") {
        Some(rest) => rest,
        None => {
            proof {
                assert forall|id: Seq<char>, offset: u64|
                    !names_occurrence(stream_id@, id, offset) by {
                    lemma_occurrence_name_layout(id, offset);
                    if names_occurrence(stream_id@, id, offset) {
                        assert(stream_id@.subrange(0, 22) =~= "recurrence-occurrence:"@);
                    }
                }
            }
            return None;
        },
    };
    let n = rest.unicode_len();
    let first = match find_char(rest, ':') {
        Some(i) => i,
        None => {
            proof {
                assert forall|id: Seq<char>, offset: u64|
                    !names_occurrence(stream_id@, id, offset) by {
                    lemma_occurrence_name_layout(id, offset);
                    if names_occurrence(stream_id@, id, offset) {
                        assert(rest@ =~= coordinates(id, offset));
                        let a = decimal((encode_utf8(id).len() as usize) as nat).len() as int;
                        assert(rest@[a] == ':');
                    }
                }
            }
            return None;
        },
    };
    let last = match rfind_char(rest, ':') {
        Some(i) => i,
        None => {
            assert(rest@[first as int] == ':');
            return None;
        },
    };
    if last <= first {
        proof {
            assert forall|id: Seq<char>, offset: u64|
                !names_occurrence(stream_id@, id, offset) by {
                lemma_occurrence_name_layout(id, offset);
                if names_occurrence(stream_id@, id, offset) {
                    assert(rest@ =~= coordinates(id, offset));
                    let a = decimal((encode_utf8(id).len() as usize) as nat).len() as int;
                    let b = rest@.len() - decimal(offset as nat).len();
                    assert(rest@[a] == ':');
                    assert(rest@[b - 1] == ':');
                }
            }
        }
        return None;
    }
    let id_text = rest.substring_char(first + 1, last);
    let offset_text = rest.substring_char(last + 1, n);
    proof {
        assert forall|id: Seq<char>, offset: u64| names_occurrence(stream_id@, id, offset) implies
            id_text@ == id && offset_text@ == decimal(offset as nat) && all_digits(offset_text@)
            && offset_text@.len() > 0 && digits_value(offset_text@) == offset by {
            lemma_occurrence_name_layout(id, offset);
            assert(rest@ =~= coordinates(id, offset));
            let a = decimal((encode_utf8(id).len() as usize) as nat).len() as int;
            let b = rest@.len() - decimal(offset as nat).len();
            assert(rest@[a] == ':');
            assert(rest@[b - 1] == ':');
            assert(first == a);
            assert(last == b - 1);
        }
    }
    let offset = match parse_decimal_u64(offset_text) {
        Some(v) => v,
        None => {
            return None;
        },
    };
    let id = match RecurrenceId::new(id_text.to_owned()) {
        Ok(id) => id,
        Err(_) => {
            return None;
        },
    };
    let rebuilt = recurrence_occurrence_stream(&id, offset);
    if str_equals(rebuilt.as_str(), stream_id) {
        Some((id, offset))
    } else {
        None
    }
}

/// Distinct occurrence coordinates name distinct streams, whatever separators
/// the recurrence identifiers hold: the name carries the identifier's byte
/// length, and the offset's digits hold no colon.
pub proof fn lemma_occurrence_stream_names_are_distinct(
    id1: Seq<char>,
    offset1: u64,
    id2: Seq<char>,
    offset2: u64,
)
    requires
        occurrence_stream_name(id1, offset1) == occurrence_stream_name(id2, offset2),
    ensures
        id1 == id2,
        offset1 == offset2,
{
    lemma_occurrence_name_layout(id1, offset1);
    lemma_occurrence_name_layout(id2, offset2);
    let p = "recurrence-occurrence:"@;
    let r1 = coordinates(id1, offset1);
    let r2 = coordinates(id2, offset2);
    assert(r1 =~= r2) by {
        assert(r1 =~= (p + r1).subrange(22, (p + r1).len() as int));
        assert(r2 =~= (p + r2).subrange(22, (p + r2).len() as int));
    }
    let a1 = decimal((encode_utf8(id1).len() as usize) as nat).len() as int;
    let a2 = decimal((encode_utf8(id2).len() as usize) as nat).len() as int;
    let d1 = decimal(offset1 as nat);
    let d2 = decimal(offset2 as nat);
    assert(a1 == a2) by {
        if a1 < a2 {
            assert(r2[a1] != ':');
        } else if a2 < a1 {
            assert(r1[a2] != ':');
        }
    }
    let b1 = r1.len() - d1.len();
    let b2 = r2.len() - d2.len();
    assert(b1 == b2) by {
        if b1 < b2 {
            assert(r2[b2 - 1] == ':');
            assert(r1[b2 - 1] != ':');
        } else if b2 < b1 {
            assert(r1[b1 - 1] == ':');
            assert(r2[b1 - 1] != ':');
        }
    }
    assert(id1 == r1.subrange(a1 + 1, b1 - 1));
    assert(id2 == r2.subrange(a2 + 1, b2 - 1));
    assert(d1 == d2);
}

} // verus!
