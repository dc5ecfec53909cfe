//! Field transcoders: the domain-specific decodings of raw JSON values that
//! the document format calls for and that no direct JSON-to-struct mapping
//! expresses.

use vstd::prelude::*;

use crate::error::PyxelError;
use crate::json::Json;
use vstd::pervasive::VecAdditionalExecFns;

verus! {

/// The angle transcoder's value on a raw JSON value: a non-negative integer
/// quadrant code `q` stands for `q * 90` degrees. Anything that is not a
/// non-negative integer, or whose degree value does not fit in 64 bits, is
/// rejected.
pub open spec fn spec_degrees(j: Json) -> Option<u64> {
    match j {
        Json::UInt(q) => if 90 * q <= u64::MAX {
            Some((90 * q) as u64)
        } else {
            None
        },
        _ => None,
    }
}

/// Decodes a quadrant code into whole degrees: `q` becomes `90 * q`.
///
/// Fails on any value that is not a non-negative integer, and on quadrant
/// codes so large that the degree value would not fit in 64 bits.
pub fn deserialize_as_degrees(j: &Json) -> (r: Result<u64, PyxelError>)
    ensures
        match r {
            Ok(d) => spec_degrees(*j) == Some(d),
            Err(e) => spec_degrees(*j) is None && e is Serde,
        },
{
    match j {
        Json::UInt(q) => match q.checked_mul(90) {
            Some(d) => Ok(d),
            None => Err(
                PyxelError::Serde(String::from_str("quadrant code is too large to express in degrees")),
            ),
        },
        _ => Err(PyxelError::Serde(String::from_str("expected a non-negative integer quadrant code"))),
    }
}

/// The duration transcoder's value on a raw JSON value: a non-negative
/// integer is a count of milliseconds, taken exactly, with no upper bound
/// beyond 64 bits and no rounding.
pub open spec fn spec_milliseconds(j: Json) -> Option<u64> {
    match j {
        Json::UInt(n) => Some(n),
        _ => None,
    }
}

/// Decodes a millisecond count: `n` becomes exactly `n` milliseconds.
///
/// Fails on any value that is not a non-negative integer.
pub fn deserialize_as_milliseconds(j: &Json) -> (r: Result<u64, PyxelError>)
    ensures
        match r {
            Ok(ms) => spec_milliseconds(*j) == Some(ms),
            Err(e) => spec_milliseconds(*j) is None && e is Serde,
        },
{
    match j {
        Json::UInt(n) => Ok(*n),
        _ => Err(
            PyxelError::Serde(String::from_str("expected a non-negative integer millisecond count")),
        ),
    }
}

/// The values of a JSON array of non-negative integers, in order; `None` if
/// any element is something else.
pub open spec fn spec_uint_values(items: Seq<Json>) -> Option<Seq<u64>>
    decreases items.len(),
{
    if items.len() == 0 {
        Some(Seq::empty())
    } else {
        match (spec_uint_values(items.drop_last()), items.last()) {
            (Some(rest), Json::UInt(v)) => Some(rest.push(v)),
            _ => None,
        }
    }
}

/// The multiplier transcoder's value on a raw JSON value: an array of
/// non-negative integers, each a multiplier scaled by one hundred
/// (`100` stands for 1x, `50` for 0.5x). The scaled values are kept exactly
/// as sent, in order; the empty array is valid and yields the empty sequence.
pub open spec fn spec_multipliers(j: Json) -> Option<Seq<u64>> {
    match j {
        Json::Arr(items) => spec_uint_values(items@),
        _ => None,
    }
}

/// Decodes a sequence of frame-duration multipliers, each given on the wire
/// as the multiplier scaled by one hundred. The result holds the scaled
/// values unchanged, in order (`[100, 200, 50]` stands for `[1x, 2x, 0.5x]`);
/// an empty array yields an empty sequence.
///
/// Fails if any element is not a non-negative integer.
#[verifier::loop_isolation(false)]
pub fn deserialize_multipliers(j: &Json) -> (r: Result<Vec<u64>, PyxelError>)
    ensures
        match r {
            Ok(v) => spec_multipliers(*j) == Some(v@),
            Err(e) => spec_multipliers(*j) is None && e is Serde,
        },
{
    match j {
        Json::Arr(items) => {
            let mut out: Vec<u64> = Vec::new();
            let mut i: usize = 0;
            proof {
                assert(items@.take(0) =~= Seq::<Json>::empty());
            }
            while i < items.len()
                invariant
                    i <= items@.len(),
                    spec_uint_values(items@.take(i as int)) == Some(out@),
                decreases items@.len() - i,
            {
                proof {
                    assert(items@.take(i + 1).drop_last() =~= items@.take(i as int));
                    assert(items@.take(i + 1).last() == items@[i as int]);
                }
                let it = &items[i];
                match it {
                    Json::UInt(v) => out.push(*v),
                    _ => {
                        proof {
                            lemma_uint_values_element_none(items@, i as int);
                        }
                        return Err(
                            PyxelError::Serde(
                                String::from_str("expected an array of non-negative integer multipliers"),
                            ),
                        );
                    },
                }
                i = i + 1;
            }
            proof {
                assert(items@.take(items@.len() as int) =~= items@);
            }
            Ok(out)
        },
        _ => Err(PyxelError::Serde(String::from_str("expected an array of multipliers"))),
    }
}

/// If some element of `items` is not a non-negative integer, the whole array
/// has no multiplier decoding.
proof fn lemma_uint_values_element_none(items: Seq<Json>, i: int)
    requires
        0 <= i < items.len(),
        !(items[i] is UInt),
    ensures
        spec_uint_values(items) is None,
    decreases items.len(),
{
    if items.len() > 0 && i < items.len() - 1 {
        assert(items.drop_last()[i] == items[i]);
        lemma_uint_values_element_none(items.drop_last(), i);
    }
}

/// One step of the sparse-map placement: each entry, front to back, is
/// placed at the slot its key names. Placement fails on a key at or beyond
/// the slot count and on a slot already filled (a duplicate key).
pub open spec fn spec_place<T>(slots: Seq<Option<T>>, entries: Seq<(usize, T)>) -> Option<
    Seq<Option<T>>,
>
    decreases entries.len(),
{
    if entries.len() == 0 {
        Some(slots)
    } else {
        let k = entries[0].0;
        if k < slots.len() && slots[k as int] is None {
            spec_place(slots.update(k as int, Some(entries[0].1)), entries.drop_first())
        } else {
            None
        }
    }
}

/// A row of `n` empty slots, ready for placement.
pub open spec fn spec_empty_slots<T>(n: nat) -> Seq<Option<T>> {
    Seq::new(n, |i: int| None::<T>)
}

/// The sparse-map-to-sequence transcoder's value on a sequence of
/// integer-keyed entries: each value sits at the position its key names.
///
/// The policy is strict: the keys must be exactly `0 .. entries.len()`, each
/// once. A duplicate key, a key at or beyond the entry count, and a gap
/// (which forces one of the former by counting) are all rejected.
pub open spec fn spec_map_as_vec<T>(entries: Seq<(usize, T)>) -> Option<Seq<T>> {
    match spec_place(spec_empty_slots(entries.len()), entries) {
        Some(slots) => if forall|i: int| 0 <= i < slots.len() ==> #[trigger] slots[i] is Some {
            Some(Seq::new(slots.len(), |i: int| slots[i]->Some_0))
        } else {
            None
        },
        None => None,
    }
}

/// Materializes a sparse integer-keyed map into the dense sequence it stands
/// for: each value is placed at the position its key names.
///
/// Keys must be exactly `0 .. entries.len()`: a duplicate key, an
/// out-of-range key, or a gap in the keys is a deserialization error.
#[verifier::loop_isolation(false)]
pub fn deserialize_map_as_vec<T: DeepView>(entries: Vec<(usize, T)>) -> (r: Result<
    Vec<T>,
    PyxelError,
>)
    ensures
        match r {
            Ok(v) => spec_map_as_vec(entries.deep_view()) == Some(v.deep_view()),
            Err(e) => spec_map_as_vec(entries.deep_view()) is None && e is Serde,
        },
{
    let ghost es = entries.deep_view();
    let ghost init = spec_empty_slots::<T::V>(es.len());
    let n = entries.len();
    proof {
        assert(es.len() == n);
    }
    let mut slots: Vec<Option<T>> = Vec::new();
    while slots.len() < n
        invariant
            slots@.len() <= n,
            forall|i: int| 0 <= i < slots@.len() ==> #[trigger] slots@[i] is None,
        decreases n - slots@.len(),
    {
        let ghost oldv = slots@;
        slots.push(None);
        proof {
            assert(forall|i: int| 0 <= i < oldv.len() ==> slots@[i] == #[trigger] oldv[i]);
        }
    }
    proof {
        assert forall|i: int| 0 <= i < n implies slots.deep_view()[i] == init[i] by {
            assert(slots.deep_view()[i] == slots@[i].deep_view());
            assert(slots@[i] is None);
        }
        assert(slots.deep_view() =~= init);
    }
    let mut rest = entries;
    while rest.len() > 0
        invariant
            slots@.len() == n,
            slots.deep_view().len() == n,
            spec_place(slots.deep_view(), rest.deep_view()) == spec_place(init, es),
        decreases rest@.len(),
    {
        let ghost old_slots_v = slots@;
        let ghost old_slots_dv = slots.deep_view();
        let ghost old_rest_v = rest@;
        let ghost old_rest_dv = rest.deep_view();
        let (k, v) = rest.remove(0);
        let ghost vdv = v.deep_view();
        proof {
            assert(rest.deep_view() =~= old_rest_dv.drop_first());
            assert(old_rest_dv[0] == old_rest_v[0].deep_view());
            assert(old_rest_dv[0] == (k, vdv));
        }
        if k < slots.len() && slots[k].is_none() {
            proof {
                assert(old_slots_dv[k as int] == old_slots_v[k as int].deep_view());
                assert(old_slots_dv[k as int] is None);
            }
            slots.set(k, Some(v));
            proof {
                assert forall|i: int|
                    0 <= i < n implies slots.deep_view()[i] == old_slots_dv.update(
                    k as int,
                    Some(vdv),
                )[i] by {
                    assert(slots.deep_view()[i] == slots@[i].deep_view());
                    if i != k {
                        assert(slots@[i] == old_slots_v[i]);
                        assert(old_slots_dv[i] == old_slots_v[i].deep_view());
                    }
                }
                assert(slots.deep_view() =~= old_slots_dv.update(k as int, Some(vdv)));
            }
        } else if k < slots.len() {
            proof {
                assert(old_slots_dv[k as int] == old_slots_v[k as int].deep_view());
                assert(spec_place(old_slots_dv, old_rest_dv) is None);
                lemma_map_as_vec_none(es);
            }
            return Err(PyxelError::Serde(String::from_str("duplicate key in integer-keyed map")));
        } else {
            proof {
                assert(spec_place(old_slots_dv, old_rest_dv) is None);
                lemma_map_as_vec_none(es);
            }
            return Err(
                PyxelError::Serde(String::from_str("key out of range in integer-keyed map")),
            );
        }
    }
    proof {
        assert(rest.deep_view().len() == 0);
        assert(spec_place(slots.deep_view(), rest.deep_view()) == Some(slots.deep_view()));
    }
    let ghost full = slots.deep_view();
    let mut out: Vec<T> = Vec::new();
    let mut rest_slots = slots;
    proof {
        assert(rest_slots.deep_view() =~= full.skip(0));
    }
    while rest_slots.len() > 0
        invariant
            out@.len() + rest_slots@.len() == n,
            full.len() == n,
            rest_slots.deep_view() =~= full.skip(out@.len() as int),
            forall|i: int| 0 <= i < out@.len() ==> #[trigger] full[i] is Some,
            forall|i: int|
                0 <= i < out@.len() ==> #[trigger] out.deep_view()[i] == full[i]->Some_0,
            spec_place(init, es) == Some(full),
        decreases rest_slots@.len(),
    {
        let ghost pos = out@.len() as int;
        let ghost old_out_v = out@;
        let ghost old_out_dv = out.deep_view();
        let ghost old_rest_v = rest_slots@;
        let ghost old_rest_dv = rest_slots.deep_view();
        let slot = rest_slots.remove(0);
        proof {
            assert(rest_slots.deep_view() =~= old_rest_dv.drop_first());
            assert(old_rest_dv[0] == old_rest_v[0].deep_view());
            assert(slot.deep_view() == full[pos]);
            assert(rest_slots.deep_view() =~= full.skip(pos + 1));
        }
        match slot {
            Some(v) => {
                let ghost vdv = v.deep_view();
                proof {
                    assert(full[pos] == Some(vdv));
                }
                out.push(v);
                proof {
                    assert forall|i: int|
                        0 <= i < out@.len() implies #[trigger] out.deep_view()[i]
                        == full[i]->Some_0 by {
                        assert(out.deep_view()[i] == out@[i].deep_view());
                        if i < pos {
                            assert(out@[i] == old_out_v[i]);
                            assert(old_out_dv[i] == old_out_v[i].deep_view());
                        }
                    }
                }
            },
            None => {
                proof {
                    assert(full[pos] is None);
                    lemma_map_as_vec_gap(es, full, pos);
                }
                return Err(
                    PyxelError::Serde(
                        String::from_str("gap in integer-keyed map: keys must cover 0..len"),
                    ),
                );
            },
        }
    }
    proof {
        assert(forall|i: int| 0 <= i < full.len() ==> #[trigger] full[i] is Some);
        assert(out.deep_view().len() == full.len());
        lemma_map_as_vec_some(es, full, out.deep_view());
    }
    Ok(out)
}

/// Placement failure means the whole transcoding fails.
proof fn lemma_map_as_vec_none<T>(es: Seq<(usize, T)>)
    requires
        spec_place(spec_empty_slots(es.len()), es) is None,
    ensures
        spec_map_as_vec(es) is None,
{
}

/// An unfilled slot after placement means the whole transcoding fails.
proof fn lemma_map_as_vec_gap<T>(es: Seq<(usize, T)>, full: Seq<Option<T>>, i: int)
    requires
        spec_place(spec_empty_slots(es.len()), es) == Some(full),
        0 <= i < full.len(),
        full[i] is None,
    ensures
        spec_map_as_vec(es) is None,
{
    assert(!(forall|k: int| 0 <= k < full.len() ==> #[trigger] full[k] is Some));
}

/// Placement success with every slot filled means the transcoding succeeds,
/// yielding the filled slots in order.
proof fn lemma_map_as_vec_some<T>(es: Seq<(usize, T)>, full: Seq<Option<T>>, out: Seq<T>)
    requires
        spec_place(spec_empty_slots(es.len()), es) == Some(full),
        forall|k: int| 0 <= k < full.len() ==> #[trigger] full[k] is Some,
        out.len() == full.len(),
        forall|k: int| 0 <= k < full.len() ==> #[trigger] out[k] == full[k]->Some_0,
    ensures
        spec_map_as_vec(es) == Some(out),
{
    let r = spec_map_as_vec(es);
    assert(r is Some);
    assert(r->Some_0 =~= out);
}

/// Every placed slot of a successful placement survives to the end: slots
/// already filled are never overwritten, and each entry's value ends at the
/// slot its key names.
proof fn lemma_place_props<T>(slots: Seq<Option<T>>, entries: Seq<(usize, T)>)
    requires
        spec_place(slots, entries) is Some,
    ensures
        spec_place(slots, entries)->Some_0.len() == slots.len(),
        forall|i: int|
            0 <= i < entries.len() ==> entries[i].0 < slots.len() && spec_place(
                slots,
                entries,
            )->Some_0[entries[i].0 as int] == Some(entries[i].1),
        forall|k: int|
            0 <= k < slots.len() && slots[k] is Some ==> spec_place(slots, entries)->Some_0[k]
                == slots[k],
    decreases entries.len(),
{
    if entries.len() > 0 {
        let k0 = entries[0].0;
        let v0 = entries[0].1;
        let updated = slots.update(k0 as int, Some(v0));
        let rest = entries.drop_first();
        assert(spec_place(slots, entries) == spec_place(updated, rest));
        lemma_place_props(updated, rest);
        let fin = spec_place(slots, entries)->Some_0;
        assert(fin.len() == slots.len());
        assert(updated[k0 as int] == Some(v0));
        assert(fin[k0 as int] == Some(v0));
        assert forall|i: int| 0 <= i < entries.len() implies entries[i].0 < slots.len() && fin[
            entries[i].0 as int
        ] == Some(entries[i].1) by {
            if i > 0 {
                assert(rest[i - 1] == entries[i]);
                assert(rest[i - 1].0 < updated.len() && fin[rest[i - 1].0 as int] == Some(
                    rest[i - 1].1,
                ));
            }
        }
        assert forall|k: int| 0 <= k < slots.len() && slots[k] is Some implies fin[k]
            == slots[k] by {
            assert(slots[k0 as int] is None);
            assert(k != k0);
            assert(updated[k] == slots[k]);
        }
    }
}

/// The law of the sparse-map-to-sequence transcoder: where it succeeds, the
/// output has exactly one position per entry, and each entry's value sits at
/// the position its key names.
pub proof fn lemma_map_as_vec_placement<T>(entries: Seq<(usize, T)>, out: Seq<T>)
    requires
        spec_map_as_vec(entries) == Some(out),
    ensures
        out.len() == entries.len(),
        forall|i: int|
            0 <= i < entries.len() ==> entries[i].0 < out.len() && out[entries[i].0 as int]
                == entries[i].1,
{
    lemma_place_props(spec_empty_slots(entries.len()), entries);
}

} // verus!
