//! The join engine: combines attribute rows keyed by identifier with
//! independently fetched geometry chunks into joined output rows, never
//! failing the whole operation on partial mismatch. Failed chunks and
//! unmatched identifiers are collected in their own error lists alongside
//! the successful output.

use vstd::prelude::*;

use itertools::Itertools;

use crate::geoid::{Geoid, GeoidModel};
use crate::variable::Variable;
use vstd::pervasive::cloned;

verus! {

/// One named attribute value of a statistical row.
#[derive(Debug)]
pub struct AcsValue {
    pub name: Variable,
    pub value: String,
}

impl Clone for AcsValue {
    fn clone(&self) -> (r: Self)
        ensures
            r == *self,
    {
        AcsValue { name: self.name.clone(), value: self.value.clone() }
    }
}

/// One joined output row: an identifier, one of its attribute values, and
/// the geometry found for the identifier.
#[derive(Debug)]
pub struct AcsTigerRow<G> {
    pub geoid: Geoid,
    pub acs_value: AcsValue,
    pub geometry: G,
}

/// The three-way outcome of a join: the joined rows, the failed geometry
/// chunks' messages, and the identifiers for which no geometry was found.
/// Callers must inspect all three to know the complete outcome.
#[derive(Debug)]
pub struct AcsTigerResponse<G> {
    pub join_dataset: Vec<AcsTigerRow<G>>,
    pub tiger_errors: Vec<String>,
    pub join_errors: Vec<String>,
}

/// The successful chunks, in input order.
pub open spec fn chunk_oks<G>(chunks: Seq<Result<Vec<(Geoid, G)>, String>>) -> Seq<
    Vec<(Geoid, G)>,
>
    decreases chunks.len(),
{
    if chunks.len() == 0 {
        Seq::empty()
    } else {
        match chunks.first() {
            Ok(v) => seq![v] + chunk_oks(chunks.drop_first()),
            Err(_) => chunk_oks(chunks.drop_first()),
        }
    }
}

/// The failed chunks' messages, in input order.
pub open spec fn chunk_errs<G>(chunks: Seq<Result<Vec<(Geoid, G)>, String>>) -> Seq<String>
    decreases chunks.len(),
{
    if chunks.len() == 0 {
        Seq::empty()
    } else {
        match chunks.first() {
            Ok(_) => chunk_errs(chunks.drop_first()),
            Err(e) => seq![e] + chunk_errs(chunks.drop_first()),
        }
    }
}

/// All pairs of the successful chunks, flattened in order.
pub open spec fn flatten_pairs<G>(oks: Seq<Vec<(Geoid, G)>>) -> Seq<(Geoid, G)>
    decreases oks.len(),
{
    if oks.len() == 0 {
        Seq::empty()
    } else {
        oks.first()@ + flatten_pairs(oks.drop_first())
    }
}

/// The first pair whose identifier has the given value, if any: the
/// geometry lookup is by exact identifier equality, with no implicit
/// truncation.
pub open spec fn spec_find<G>(pairs: Seq<(Geoid, G)>, m: GeoidModel) -> Option<(Geoid, G)>
    decreases pairs.len(),
{
    if pairs.len() == 0 {
        None
    } else if pairs.first().0@ == m {
        Some(pairs.first())
    } else {
        spec_find(pairs.drop_first(), m)
    }
}

/// The joined rows owed for the given attribute rows: for each row whose
/// identifier has a geometry, one output row per attribute value, all
/// sharing that geometry; nothing for the rest.
pub open spec fn expected_rows<G>(
    acs: Seq<(Geoid, Vec<AcsValue>)>,
    pairs: Seq<(Geoid, G)>,
) -> Seq<(Geoid, AcsValue, G)>
    decreases acs.len(),
{
    if acs.len() == 0 {
        Seq::empty()
    } else {
        let row = acs.first();
        let head: Seq<(Geoid, AcsValue, G)> = match spec_find(pairs, row.0@) {
            Some(pg) => Seq::new(row.1@.len(), |i: int| (row.0, row.1@[i], pg.1)),
            None => Seq::empty(),
        };
        head + expected_rows(acs.drop_first(), pairs)
    }
}

/// The attribute-row identifiers for which no geometry was found, in
/// input order.
pub open spec fn unmatched_geoids<G>(
    acs: Seq<(Geoid, Vec<AcsValue>)>,
    pairs: Seq<(Geoid, G)>,
) -> Seq<Geoid>
    decreases acs.len(),
{
    if acs.len() == 0 {
        Seq::empty()
    } else {
        let row = acs.first();
        let head: Seq<Geoid> = if spec_find(pairs, row.0@) is None {
            seq![row.0]
        } else {
            Seq::empty()
        };
        head + unmatched_geoids(acs.drop_first(), pairs)
    }
}

/// The message recorded for an identifier with no geometry.
pub open spec fn join_error_message(m: GeoidModel) -> Seq<char> {
    "no geometry found for Geoid "@ + m.render()
}

/// Relies on `itertools::Itertools::partition_result`: it splits the
/// chunks into the successful payloads and the failure messages, each
/// side keeping its input order.
#[verifier::external_body]
fn partition_chunks<G>(chunks: Vec<Result<Vec<(Geoid, G)>, String>>) -> (r: (
    Vec<Vec<(Geoid, G)>>,
    Vec<String>,
))
    ensures
        r.0@ == chunk_oks(chunks@),
        r.1@ == chunk_errs(chunks@),
{
    chunks.into_iter().partition_result()
}

/// Flatten the successful chunks into one list of pairs, keeping order.
fn flatten_geometry_chunks<G>(chunks: Vec<Vec<(Geoid, G)>>) -> (r: Vec<(Geoid, G)>)
    ensures
        r@ == flatten_pairs(chunks@),
{
    let ghost total = chunks@;
    let mut rest = chunks;
    let mut out: Vec<(Geoid, G)> = Vec::new();
    while rest.len() > 0
        invariant
            out@ + flatten_pairs(rest@) == flatten_pairs(total),
        decreases rest.len(),
    {
        let ghost prev = rest@;
        let mut chunk = rest.remove(0);
        proof {
            assert(rest@ =~= prev.drop_first());
            assert(chunk@ == prev.first()@);
        }
        out.append(&mut chunk);
        proof {
            assert(out@ + flatten_pairs(rest@) =~= flatten_pairs(total));
        }
    }
    proof {
        assert(out@ =~= flatten_pairs(total));
    }
    out
}

/// The first index whose identifier matches, walking from the front.
proof fn lemma_spec_find_at<G>(pairs: Seq<(Geoid, G)>, m: GeoidModel, i: int)
    requires
        0 <= i <= pairs.len(),
        forall|j: int| 0 <= j < i ==> (#[trigger] pairs[j]).0@ != m,
    ensures
        i < pairs.len() && pairs[i].0@ == m ==> spec_find(pairs, m) == Some(pairs[i]),
        i == pairs.len() ==> spec_find(pairs, m) is None,
    decreases pairs.len(),
{
    if pairs.len() == 0 || i == 0 {
    } else {
        assert(pairs[0].0@ != m);
        let rest = pairs.drop_first();
        assert(forall|j: int| 0 <= j < i - 1 ==> (#[trigger] rest[j]).0@ != m) by {
            assert(forall|j: int| 0 <= j < rest.len() ==> #[trigger] rest[j] == pairs[j + 1]);
        }
        lemma_spec_find_at(rest, m, i - 1);
        if i < pairs.len() && pairs[i].0@ == m {
            assert(rest[i - 1] == pairs[i]);
        }
    }
}

/// Find the geometry for an identifier by exact equality; the first
/// matching pair wins.
fn find_geometry_index<G>(pairs: &Vec<(Geoid, G)>, g: &Geoid) -> (r: Option<usize>)
    ensures
        r matches Some(i) ==> i < pairs@.len() && spec_find(pairs@, g@) == Some(pairs@[i as int]),
        r is None ==> spec_find(pairs@, g@) is None,
{
    let n = pairs.len();
    let mut i: usize = 0;
    while i < n
        invariant
            0 <= i <= n,
            n == pairs@.len(),
            forall|j: int| 0 <= j < i ==> (#[trigger] pairs@[j]).0@ != g@,
        decreases n - i,
    {
        if pairs[i].0 == *g {
            proof {
                lemma_spec_find_at(pairs@, g@, i as int);
            }
            return Some(i);
        }
        i += 1;
    }
    proof {
        lemma_spec_find_at(pairs@, g@, n as int);
    }
    None
}

/// Splitting the attribute rows splits the owed output rows.
proof fn lemma_expected_rows_concat<G>(
    a: Seq<(Geoid, Vec<AcsValue>)>,
    b: Seq<(Geoid, Vec<AcsValue>)>,
    pairs: Seq<(Geoid, G)>,
)
    ensures
        expected_rows(a + b, pairs) == expected_rows(a, pairs) + expected_rows(b, pairs),
    decreases a.len(),
{
    if a.len() == 0 {
        assert(a + b =~= b);
        assert(expected_rows(a, pairs) + expected_rows(b, pairs) =~= expected_rows(b, pairs));
    } else {
        assert((a + b).first() == a.first());
        assert((a + b).drop_first() =~= a.drop_first() + b);
        lemma_expected_rows_concat(a.drop_first(), b, pairs);
        let row = a.first();
        let head: Seq<(Geoid, AcsValue, G)> = match spec_find(pairs, row.0@) {
            Some(pg) => Seq::new(row.1@.len(), |i: int| (row.0, row.1@[i], pg.1)),
            None => Seq::empty(),
        };
        assert(head + (expected_rows(a.drop_first(), pairs) + expected_rows(b, pairs)) =~= (head
            + expected_rows(a.drop_first(), pairs)) + expected_rows(b, pairs));
    }
}

/// Splitting the attribute rows splits the unmatched identifiers.
proof fn lemma_unmatched_concat<G>(
    a: Seq<(Geoid, Vec<AcsValue>)>,
    b: Seq<(Geoid, Vec<AcsValue>)>,
    pairs: Seq<(Geoid, G)>,
)
    ensures
        unmatched_geoids(a + b, pairs) == unmatched_geoids(a, pairs) + unmatched_geoids(b, pairs),
    decreases a.len(),
{
    if a.len() == 0 {
        assert(a + b =~= b);
        assert(unmatched_geoids(a, pairs) + unmatched_geoids(b, pairs) =~= unmatched_geoids(
            b,
            pairs,
        ));
    } else {
        assert((a + b).first() == a.first());
        assert((a + b).drop_first() =~= a.drop_first() + b);
        lemma_unmatched_concat(a.drop_first(), b, pairs);
        let row = a.first();
        let head: Seq<Geoid> = if spec_find(pairs, row.0@) is None {
            seq![row.0]
        } else {
            Seq::empty()
        };
        assert(head + (unmatched_geoids(a.drop_first(), pairs) + unmatched_geoids(b, pairs)) =~= (
        head + unmatched_geoids(a.drop_first(), pairs)) + unmatched_geoids(b, pairs));
    }
}

/// Run the join: flatten and partition the geometry chunks, then, for
/// every attribute row whose identifier has a geometry (by exact
/// equality), emit one output row per attribute value, all sharing that
/// geometry; record every identifier without a geometry in the join-error
/// list. Geometries with no matching attribute row are silently dropped;
/// no partial mismatch fails the whole operation.
pub fn run_join<G: Clone>(
    acs_rows: Vec<(Geoid, Vec<AcsValue>)>,
    tiger_response: Vec<Result<Vec<(Geoid, G)>, String>>,
) -> (r: AcsTigerResponse<G>)
    ensures
        r.tiger_errors@ == chunk_errs(tiger_response@),
        r.join_dataset@.len() == expected_rows(
            acs_rows@,
            flatten_pairs(chunk_oks(tiger_response@)),
        ).len(),
        forall|i: int|
            0 <= i < r.join_dataset@.len() ==> {
                let exp = expected_rows(acs_rows@, flatten_pairs(chunk_oks(tiger_response@)));
                &&& (#[trigger] r.join_dataset@[i]).geoid == exp[i].0
                &&& r.join_dataset@[i].acs_value == exp[i].1
                &&& cloned::<G>(exp[i].2, r.join_dataset@[i].geometry)
            },
        r.join_errors@.len() == unmatched_geoids(
            acs_rows@,
            flatten_pairs(chunk_oks(tiger_response@)),
        ).len(),
        forall|i: int|
            0 <= i < r.join_errors@.len() ==> (#[trigger] r.join_errors@[i])@
                == join_error_message(
                unmatched_geoids(acs_rows@, flatten_pairs(chunk_oks(tiger_response@)))[i]@,
            ),
{
    let (oks, tiger_errors) = partition_chunks(tiger_response);
    let pairs = flatten_geometry_chunks(oks);
    let ghost ps = pairs@;
    let mut join_dataset: Vec<AcsTigerRow<G>> = Vec::new();
    let mut join_errors: Vec<String> = Vec::new();
    let n = acs_rows.len();
    let mut idx: usize = 0;
    while idx < n
        invariant
            0 <= idx <= n,
            n == acs_rows@.len(),
            ps == pairs@,
            join_dataset@.len() == expected_rows(acs_rows@.take(idx as int), ps).len(),
            forall|i: int|
                0 <= i < join_dataset@.len() ==> {
                    let exp = expected_rows(acs_rows@.take(idx as int), ps);
                    &&& (#[trigger] join_dataset@[i]).geoid == exp[i].0
                    &&& join_dataset@[i].acs_value == exp[i].1
                    &&& cloned::<G>(exp[i].2, join_dataset@[i].geometry)
                },
            join_errors@.len() == unmatched_geoids(acs_rows@.take(idx as int), ps).len(),
            forall|i: int|
                0 <= i < join_errors@.len() ==> (#[trigger] join_errors@[i])@
                    == join_error_message(
                    unmatched_geoids(acs_rows@.take(idx as int), ps)[i]@,
                ),
        decreases n - idx,
    {
        let ghost done = acs_rows@.take(idx as int);
        let ghost here = acs_rows@[idx as int];
        proof {
            reveal_with_fuel(expected_rows, 3);
            reveal_with_fuel(unmatched_geoids, 3);
            assert(acs_rows@.take(idx as int + 1) =~= done + seq![here]);
            assert(seq![here].drop_first() =~= Seq::<(Geoid, Vec<AcsValue>)>::empty());
            lemma_expected_rows_concat(done, seq![here], ps);
            lemma_unmatched_concat(done, seq![here], ps);
        }
        let g = acs_rows[idx].0.clone();
        match find_geometry_index(&pairs, &g) {
            Some(j) => {
                let ghost pg = spec_find(ps, here.0@).unwrap();
                let ghost head = Seq::new(here.1@.len(), |i: int| (here.0, here.1@[i], pg.1));
                proof {
                    reveal_with_fuel(expected_rows, 3);
                    reveal_with_fuel(unmatched_geoids, 3);
                    assert(expected_rows(seq![here], ps) =~= head);
                    assert(unmatched_geoids(seq![here], ps) =~= Seq::<Geoid>::empty());
                }
                let ghost base = join_dataset@.len();
                let m = acs_rows[idx].1.len();
                let mut k: usize = 0;
                while k < m
                    invariant
                        0 <= k <= m,
                        0 <= idx < acs_rows@.len(),
                        m == here.1@.len(),
                        here == acs_rows@[idx as int],
                        ps == pairs@,
                        j < ps.len(),
                        pg == ps[j as int],
                        spec_find(ps, here.0@) == Some(pg),
                        head == Seq::new(here.1@.len(), |i: int| (here.0, here.1@[i], pg.1)),
                        base + k == join_dataset@.len(),
                        forall|i: int|
                            0 <= i < base ==> {
                                let exp = expected_rows(acs_rows@.take(idx as int), ps);
                                &&& (#[trigger] join_dataset@[i]).geoid == exp[i].0
                                &&& join_dataset@[i].acs_value == exp[i].1
                                &&& cloned::<G>(exp[i].2, join_dataset@[i].geometry)
                            },
                        forall|t: int|
                            0 <= t < k ==> {
                                &&& (#[trigger] join_dataset@[base + t]).geoid == here.0
                                &&& join_dataset@[base + t].acs_value == here.1@[t]
                                &&& cloned::<G>(pg.1, join_dataset@[base + t].geometry)
                            },
                    decreases m - k,
                {
                    let value = acs_rows[idx].1[k].clone();
                    let geom = pairs[j].1.clone();
                    let row_geoid = acs_rows[idx].0.clone();
                    join_dataset.push(AcsTigerRow { geoid: row_geoid, acs_value: value, geometry: geom });
                    k += 1;
                }
                proof {
                    let exp2 = expected_rows(acs_rows@.take(idx as int + 1), ps);
                    assert(exp2 == expected_rows(done, ps) + head);
                    assert forall|i: int| 0 <= i < join_dataset@.len() implies {
                        &&& (#[trigger] join_dataset@[i]).geoid == exp2[i].0
                        &&& join_dataset@[i].acs_value == exp2[i].1
                        &&& cloned::<G>(exp2[i].2, join_dataset@[i].geometry)
                    } by {
                        if i < base {
                            assert(exp2[i] == expected_rows(done, ps)[i]);
                        } else {
                            let t = i - base;
                            assert(join_dataset@[base + t].geoid == here.0);
                            assert(join_dataset@[base + t].acs_value == here.1@[t]);
                            assert(cloned::<G>(pg.1, join_dataset@[base + t].geometry));
                            assert(head[t] == (here.0, here.1@[t], pg.1));
                            assert(exp2[i] == head[t]);
                        }
                    }
                    assert(unmatched_geoids(acs_rows@.take(idx as int + 1), ps) =~=
                        unmatched_geoids(done, ps));
                }
            },
            None => {
                proof {
                    reveal_with_fuel(expected_rows, 3);
                    reveal_with_fuel(unmatched_geoids, 3);
                    assert(expected_rows(seq![here], ps) =~= Seq::<(Geoid, AcsValue, G)>::empty());
                    assert(unmatched_geoids(seq![here], ps) =~= seq![here.0]);
                }
                let msg = String::from_str("no geometry found for Geoid ");
                let gs = g.geoid_string();
                join_errors.push(msg.concat(gs.as_str()));
                proof {
                    assert(expected_rows(acs_rows@.take(idx as int + 1), ps) =~= expected_rows(
                        done,
                        ps,
                    ));
                    let un2 = unmatched_geoids(acs_rows@.take(idx as int + 1), ps);
                    assert(un2 == unmatched_geoids(done, ps) + seq![here.0]);
                    assert forall|i: int| 0 <= i < join_errors@.len() implies (
                    #[trigger] join_errors@[i])@ == join_error_message(un2[i]@) by {
                        if i < un2.len() - 1 {
                            assert(un2[i] == unmatched_geoids(done, ps)[i]);
                        } else {
                            assert(un2[i] == here.0);
                        }
                    }
                }
            },
        }
        idx += 1;
    }
    proof {
        assert(acs_rows@.take(n as int) =~= acs_rows@);
    }
    AcsTigerResponse { join_dataset, tiger_errors, join_errors }
}

/// Law: join completeness. With attribute rows for two identifiers and
/// geometries for the first of them and for some third identifier, the
/// join owes exactly the first row's fan-out, records the second
/// identifier as unmatched, and owes nothing for the unused geometry.
pub proof fn lemma_join_completeness<G>(
    a: (Geoid, Vec<AcsValue>),
    b: (Geoid, Vec<AcsValue>),
    ga: (Geoid, G),
    gc: (Geoid, G),
)
    requires
        ga.0@ == a.0@,
        b.0@ != ga.0@,
        b.0@ != gc.0@,
    ensures
        expected_rows(seq![a, b], seq![ga, gc]).len() == a.1@.len(),
        forall|i: int|
            0 <= i < a.1@.len() ==> expected_rows(seq![a, b], seq![ga, gc])[i] == (
                a.0,
                a.1@[i],
                ga.1,
            ),
        unmatched_geoids(seq![a, b], seq![ga, gc]) == seq![b.0],
{
    reveal_with_fuel(spec_find, 4);
    reveal_with_fuel(expected_rows, 4);
    reveal_with_fuel(unmatched_geoids, 4);
    let acs = seq![a, b];
    let pairs = seq![ga, gc];
    assert(spec_find(pairs, a.0@) == Some(ga));
    assert(pairs.drop_first() =~= seq![gc]);
    assert(seq![gc].drop_first() =~= Seq::<(Geoid, G)>::empty());
    assert(spec_find(pairs, b.0@) is None);
    assert(acs.drop_first() =~= seq![b]);
    assert(seq![b].drop_first() =~= Seq::<(Geoid, Vec<AcsValue>)>::empty());
    let head = Seq::new(a.1@.len(), |i: int| (a.0, a.1@[i], ga.1));
    assert(expected_rows(acs, pairs) =~= head);
    assert(unmatched_geoids(acs, pairs) =~= seq![b.0]);
}

/// Law: join fan-out. One attribute row whose identifier has a geometry
/// owes exactly one output row per attribute value, all sharing the
/// geometry that the lookup found.
pub proof fn lemma_join_fan_out<G>(a: (Geoid, Vec<AcsValue>), pairs: Seq<(Geoid, G)>)
    requires
        spec_find(pairs, a.0@) is Some,
    ensures
        expected_rows(seq![a], pairs).len() == a.1@.len(),
        forall|i: int|
            0 <= i < a.1@.len() ==> expected_rows(seq![a], pairs)[i] == (
                a.0,
                a.1@[i],
                spec_find(pairs, a.0@).unwrap().1,
            ),
        unmatched_geoids(seq![a], pairs) == Seq::<Geoid>::empty(),
{
    reveal_with_fuel(expected_rows, 3);
    reveal_with_fuel(unmatched_geoids, 3);
    let acs = seq![a];
    assert(acs.drop_first() =~= Seq::<(Geoid, Vec<AcsValue>)>::empty());
    let pg = spec_find(pairs, a.0@).unwrap();
    let head = Seq::new(a.1@.len(), |i: int| (a.0, a.1@[i], pg.1));
    assert(expected_rows(acs, pairs) =~= head);
    assert(unmatched_geoids(acs, pairs) =~= Seq::<Geoid>::empty());
}

} // verus!
