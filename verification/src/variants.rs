//! Index-space helpers for the specialized object kinds.
//!
//! Array-backed and byte-buffer-backed objects reserve the public-namespace
//! names that read as non-negative integers and serve them from their own
//! storage, forwarding every other name to the generic object storage.

use vstd::prelude::*;

use crate::value::Value;

verus! {

/// Whether every character of `s` is a decimal digit.
pub open spec fn spec_all_digits(s: Seq<char>) -> bool {
    forall|i: int| 0 <= i < s.len() ==> 48 <= (#[trigger] s[i]) as u32 <= 57
}

/// The value of a digit string, most significant digit first.
pub open spec fn spec_digits_value(s: Seq<char>) -> int
    decreases s.len(),
{
    if s.len() == 0 {
        0
    } else {
        spec_digits_value(s.drop_last()) * 10 + (s.last() as u32 - 48)
    }
}

/// The reserved index a name addresses, if any: a nonempty all-digit name
/// whose value fits the machine's index type.
pub open spec fn spec_parse_index(s: Seq<char>) -> Option<int> {
    if s.len() > 0 && spec_all_digits(s) && spec_digits_value(s) <= usize::MAX as int {
        Some(spec_digits_value(s))
    } else {
        None
    }
}

/// The value of an all-digit string is at least the value of any prefix,
/// and never negative.
pub proof fn lemma_digits_prefix_le(s: Seq<char>, j: int)
    requires
        spec_all_digits(s),
        0 <= j <= s.len(),
    ensures
        spec_digits_value(s) >= 0,
        spec_digits_value(s.subrange(0, j)) <= spec_digits_value(s),
    decreases s.len(),
{
    if s.len() == 0 {
        assert(s.subrange(0, j) =~= s);
    } else {
        assert(spec_all_digits(s.drop_last())) by {
            assert forall|i: int|
                0 <= i < s.drop_last().len() implies 48 <= (#[trigger] s.drop_last()[i]) as u32
                <= 57 by {
                assert(s.drop_last()[i] == s[i]);
            }
        }
        lemma_digits_prefix_le(s.drop_last(), if j <= s.len() - 1 {
            j
        } else {
            s.len() - 1
        });
        let v = spec_digits_value(s.drop_last());
        let d = s.last() as u32 - 48;
        assert(v * 10 >= v) by (nonlinear_arith)
            requires
                v >= 0,
        ;
        if j <= s.len() - 1 {
            assert(s.drop_last().subrange(0, j) =~= s.subrange(0, j));
        } else {
            assert(s.subrange(0, j) =~= s);
        }
    }
}

/// Parses a property name as a reserved index: a nonempty run of decimal
/// digits whose value fits the index type. Anything else — an empty name,
/// a sign, other characters, an overflowing value — is not an index and
/// falls through to the generic storage.
pub fn parse_index(s: &String) -> (r: Option<usize>)
    ensures
        match r {
            Some(n) => spec_parse_index(s@) == Some(n as int),
            None => spec_parse_index(s@) is None,
        },
{
    let st = s.as_str();
    let len = st.unicode_len();
    if len == 0 {
        return None;
    }
    let mut n: usize = 0;
    let mut i: usize = 0;
    proof {
        assert(s@.subrange(0, 0) =~= Seq::<char>::empty());
    }
    while i < len
        invariant
            st@ == s@,
            len == s@.len(),
            i <= len,
            spec_all_digits(s@.subrange(0, i as int)),
            n == spec_digits_value(s@.subrange(0, i as int)),
        decreases len - i,
    {
        let c = st.get_char(i);
        let d32 = c as u32;
        proof {
            assert(s@.subrange(0, i + 1).drop_last() =~= s@.subrange(0, i as int));
            assert(s@.subrange(0, i + 1).last() == s@[i as int]);
        }
        if d32 < 48 || d32 > 57 {
            proof {
                assert(!(48 <= s@[i as int] as u32 <= 57));
                assert(!spec_all_digits(s@));
            }
            return None;
        }
        let d = (d32 - 48) as usize;
        if n > (usize::MAX - d) / 10 {
            proof {
                let pre = s@.subrange(0, i + 1);
                assert(spec_digits_value(pre) == n * 10 + d);
                assert(n * 10 + d > usize::MAX as int) by (nonlinear_arith)
                    requires
                        n > (usize::MAX as int - d) / 10,
                        0 <= d <= 9,
                        n >= 0,
                ;
                if spec_all_digits(s@) {
                    lemma_digits_prefix_le(s@, i + 1);
                }
            }
            return None;
        }
        proof {
            assert(n * 10 + d <= usize::MAX as int) by (nonlinear_arith)
                requires
                    n <= (usize::MAX as int - d) / 10,
                    0 <= d <= 9,
                    n >= 0,
            ;
            assert forall|k: int| 0 <= k < i + 1 implies 48 <= (#[trigger] s@.subrange(
                0,
                i + 1,
            )[k]) as u32 <= 57 by {
                if k < i {
                    assert(s@.subrange(0, i + 1)[k] == s@.subrange(0, i as int)[k]);
                } else {
                    assert(s@.subrange(0, i + 1)[k] == s@[i as int]);
                }
            }
        }
        n = n * 10 + d;
        i += 1;
    }
    proof {
        assert(s@.subrange(0, len as int) =~= s@);
    }
    Some(n)
}

/// Reads one byte of a byte buffer; an unset index reports its absence.
pub fn byte_get(bytes: &Vec<u8>, i: usize) -> (r: Option<u8>)
    ensures
        r == if i < bytes@.len() {
            Some(bytes@[i as int])
        } else {
            None::<u8>
        },
{
    if i < bytes.len() {
        Some(bytes[i])
    } else {
        None
    }
}

/// Writes one byte of a byte buffer, growing it with zeroes as needed:
/// fixed-size buffers have no hole concept.
pub fn byte_set(bytes: &mut Vec<u8>, i: usize, v: u8)
    ensures
        final(bytes)@.len() == if i < old(bytes)@.len() {
            old(bytes)@.len() as int
        } else {
            i as int + 1
        },
        final(bytes)@[i as int] == v,
        forall|j: int|
            0 <= j < final(bytes)@.len() && j != i ==> final(bytes)@[j] == (if j < old(
                bytes,
            )@.len() {
                old(bytes)@[j]
            } else {
                0u8
            }),
{
    if bytes.len() <= i {
        while bytes.len() <= i
            invariant
                bytes@.len() >= old(bytes)@.len(),
                bytes@.len() <= i + 1,
                forall|j: int| 0 <= j < old(bytes)@.len() ==> bytes@[j] == old(bytes)@[j],
                forall|j: int| old(bytes)@.len() <= j < bytes@.len() ==> bytes@[j] == 0u8,
            decreases i + 1 - bytes@.len(),
        {
            bytes.push(0);
        }
    }
    bytes.set(i, v);
}

/// Clears one byte of a byte buffer back to the zero sentinel; an index
/// beyond the buffer is left alone.
pub fn byte_delete(bytes: &mut Vec<u8>, i: usize)
    ensures
        final(bytes)@.len() == old(bytes)@.len(),
        i < old(bytes)@.len() ==> final(bytes)@ == old(bytes)@.update(i as int, 0u8),
        i >= old(bytes)@.len() ==> final(bytes)@ == old(bytes)@,
{
    if i < bytes.len() {
        bytes.set(i, 0);
    }
}

/// Reads one element of an array; an unset index reports its absence.
pub fn array_get(arr: &Vec<Value>, i: usize) -> (r: Option<Value>)
    ensures
        r == if i < arr@.len() {
            Some(arr@[i as int])
        } else {
            None::<Value>
        },
{
    if i < arr.len() {
        Some(arr[i].clone())
    } else {
        None
    }
}

/// Writes one element of an array, growing it with `Undefined` holes as
/// needed.
pub fn array_set(arr: &mut Vec<Value>, i: usize, v: Value)
    ensures
        final(arr)@.len() == if i < old(arr)@.len() {
            old(arr)@.len() as int
        } else {
            i as int + 1
        },
        final(arr)@[i as int] == v,
        forall|j: int|
            0 <= j < final(arr)@.len() && j != i ==> final(arr)@[j] == (if j < old(arr)@.len() {
                old(arr)@[j]
            } else {
                Value::Undefined
            }),
{
    if arr.len() <= i {
        while arr.len() <= i
            invariant
                arr@.len() >= old(arr)@.len(),
                arr@.len() <= i + 1,
                forall|j: int| 0 <= j < old(arr)@.len() ==> arr@[j] == old(arr)@[j],
                forall|j: int| old(arr)@.len() <= j < arr@.len() ==> arr@[j] == Value::Undefined,
            decreases i + 1 - arr@.len(),
        {
            arr.push(Value::Undefined);
        }
    }
    arr.set(i, v);
}

/// Removes one element of an array, leaving an `Undefined` hole; an index
/// beyond the array is left alone.
pub fn array_delete(arr: &mut Vec<Value>, i: usize)
    ensures
        final(arr)@.len() == old(arr)@.len(),
        i < old(arr)@.len() ==> final(arr)@ == old(arr)@.update(i as int, Value::Undefined),
        i >= old(arr)@.len() ==> final(arr)@ == old(arr)@,
{
    if i < arr.len() {
        arr.set(i, Value::Undefined);
    }
}

} // verus!
