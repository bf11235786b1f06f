//! The Lompoc electric grid declared as a directed relational system D.
//!
//! Locus classes:
//!   S — Supply: the single wholesale purchase point (PG&E interconnect)
//!   T — Transmission: PG&E-owned lines feeding Lompoc
//!   D — Distribution: Lompoc-owned distribution infrastructure
//!   L — Load: customer load classes
//!
//! Anomaly detection operates on the declared edges.

use vstd::prelude::*;
use crate::text::contains_text;

verus! {

#[derive(Debug, Clone, PartialEq, Eq, Structural)]
pub enum LocusClass {
    Supply,
    Transmission,
    Distribution,
    Load,
}

#[derive(Debug, Clone)]
pub struct Locus {
    pub id: &'static str,
    pub class: LocusClass,
    pub label: &'static str,
}

#[derive(Debug, Clone)]
pub struct Edge {
    pub from: &'static str,
    pub to: &'static str,
    pub label: &'static str,
}

/// The declared loci, in declaration order.
pub open spec fn declared_loci() -> Seq<Locus> {
    seq![
        Locus { id: "S1", class: LocusClass::Supply, label: "PG&E wholesale purchase point" },
        Locus { id: "T1", class: LocusClass::Transmission, label: "PG&E transmission line A" },
        Locus { id: "T2", class: LocusClass::Transmission, label: "PG&E transmission line B" },
        Locus { id: "D1", class: LocusClass::Distribution, label: "Lompoc substation / distribution entry" },
        Locus { id: "D2", class: LocusClass::Distribution, label: "Residential distribution network" },
        Locus { id: "D3", class: LocusClass::Distribution, label: "Commercial distribution network" },
        Locus { id: "D4", class: LocusClass::Distribution, label: "Industrial distribution network" },
        Locus { id: "L1", class: LocusClass::Load, label: "Residential load (14,423 accounts)" },
        Locus { id: "L2", class: LocusClass::Load, label: "Commercial load (2,068 accounts)" },
        Locus { id: "L3", class: LocusClass::Load, label: "Industrial load (25 accounts)" },
    ]
}

/// The declared edges, in declaration order.
pub open spec fn declared_edges() -> Seq<Edge> {
    seq![
        Edge { from: "S1", to: "T1", label: "wholesale power flow — line A" },
        Edge { from: "S1", to: "T2", label: "wholesale power flow — line B" },
        Edge { from: "T1", to: "D1", label: "transmission to Lompoc substation" },
        Edge { from: "T2", to: "D1", label: "transmission to Lompoc substation (redundant)" },
        Edge { from: "D1", to: "D2", label: "substation to residential distribution" },
        Edge { from: "D1", to: "D3", label: "substation to commercial distribution" },
        Edge { from: "D1", to: "D4", label: "substation to industrial distribution" },
        Edge { from: "D2", to: "L1", label: "residential delivery" },
        Edge { from: "D3", to: "L2", label: "commercial delivery" },
        Edge { from: "D4", to: "L3", label: "industrial delivery" },
    ]
}

/// Locus `i` is fed by some edge whose source is a locus declared before it.
pub open spec fn fed_by_earlier(loci: Seq<Locus>, edges: Seq<Edge>, i: int) -> bool {
    exists|j: int, k: int|
        #![trigger loci[j], edges[k]]
        0 <= j < i && 0 <= k < edges.len() && edges[k].from@ == loci[j].id@ && edges[k].to@
            == loci[i].id@
}

/// The class that a locus id's leading letter names: S supply,
/// T transmission, D distribution, L load.
pub open spec fn class_named_by(id: Seq<char>) -> Option<LocusClass> {
    if id.len() == 0 {
        None
    } else if id[0] == 'S' {
        Some(LocusClass::Supply)
    } else if id[0] == 'T' {
        Some(LocusClass::Transmission)
    } else if id[0] == 'D' {
        Some(LocusClass::Distribution)
    } else if id[0] == 'L' {
        Some(LocusClass::Load)
    } else {
        None
    }
}

/// Every locus has the class that its id names.
pub open spec fn classes_follow_roles(loci: Seq<Locus>) -> bool {
    forall|i: int| 0 <= i < loci.len() ==> class_named_by((#[trigger] loci[i]).id@) == Some(loci[i].class)
}

/// The declared loci carry the ids S1, T1, T2, D1–D4, L1–L3 in that order,
/// and each has the class its id names: S1 is the supply point, T1 and T2
/// are transmission lines, D1–D4 are distribution, L1–L3 are loads.
pub proof fn lemma_declared_roles()
    ensures
        declared_loci().len() == 10,
        declared_loci()[0].id@ == "S1"@ && declared_loci()[0].class == LocusClass::Supply,
        declared_loci()[1].id@ == "T1"@ && declared_loci()[1].class == LocusClass::Transmission,
        declared_loci()[2].id@ == "T2"@ && declared_loci()[2].class == LocusClass::Transmission,
        declared_loci()[3].id@ == "D1"@ && declared_loci()[3].class == LocusClass::Distribution,
        declared_loci()[4].id@ == "D2"@ && declared_loci()[4].class == LocusClass::Distribution,
        declared_loci()[5].id@ == "D3"@ && declared_loci()[5].class == LocusClass::Distribution,
        declared_loci()[6].id@ == "D4"@ && declared_loci()[6].class == LocusClass::Distribution,
        declared_loci()[7].id@ == "L1"@ && declared_loci()[7].class == LocusClass::Load,
        declared_loci()[8].id@ == "L2"@ && declared_loci()[8].class == LocusClass::Load,
        declared_loci()[9].id@ == "L3"@ && declared_loci()[9].class == LocusClass::Load,
        classes_follow_roles(declared_loci()),
        declared_loci()[0].label@ == "PG&E wholesale purchase point"@,
        declared_loci()[1].label@ == "PG&E transmission line A"@,
        declared_loci()[2].label@ == "PG&E transmission line B"@,
        declared_loci()[3].label@ == "Lompoc substation / distribution entry"@,
        declared_loci()[4].label@ == "Residential distribution network"@,
        declared_loci()[5].label@ == "Commercial distribution network"@,
        declared_loci()[6].label@ == "Industrial distribution network"@,
        declared_loci()[7].label@ == "Residential load (14,423 accounts)"@,
        declared_loci()[8].label@ == "Commercial load (2,068 accounts)"@,
        declared_loci()[9].label@ == "Industrial load (25 accounts)"@,
{
    let loci = declared_loci();
    reveal_strlit("S1");
    reveal_strlit("T1");
    reveal_strlit("T2");
    reveal_strlit("D1");
    reveal_strlit("D2");
    reveal_strlit("D3");
    reveal_strlit("D4");
    reveal_strlit("L1");
    reveal_strlit("L2");
    reveal_strlit("L3");
}

/// `edges` holds an edge from the locus with id `from` to the one with id `to`.
pub open spec fn has_edge(edges: Seq<Edge>, from: Seq<char>, to: Seq<char>) -> bool {
    exists|k: int| #![trigger edges[k]] 0 <= k < edges.len() && edges[k].from@ == from && edges[k].to@ == to
}

/// The distribution edges on which the pilot's success criterion is
/// declared (D1→D2, D1→D3, D1→D4) are edges of the domain.
pub open spec fn pilot_edges_declared(edges: Seq<Edge>) -> bool {
    &&& has_edge(edges, "D1"@, "D2"@)
    &&& has_edge(edges, "D1"@, "D3"@)
    &&& has_edge(edges, "D1"@, "D4"@)
}

/// Every locus after the first is fed from a locus declared before it.
pub open spec fn fed_in_order(loci: Seq<Locus>, edges: Seq<Edge>) -> bool {
    forall|i: int| 0 < i < loci.len() ==> #[trigger] fed_by_earlier(loci, edges, i)
}

/// Power can flow from `from` to `to` along at most `steps` edges.
pub open spec fn reaches_within(edges: Seq<Edge>, from: Seq<char>, to: Seq<char>, steps: nat) -> bool
    decreases steps,
{
    from == to || (steps > 0 && exists|k: int|
        #![trigger edges[k]]
        0 <= k < edges.len() && edges[k].to@ == to && reaches_within(
            edges,
            from,
            edges[k].from@,
            (steps - 1) as nat,
        ))
}

/// Power can flow from `from` to `to` along the declared edges.
pub open spec fn reachable(edges: Seq<Edge>, from: Seq<char>, to: Seq<char>) -> bool {
    exists|n: nat| reaches_within(edges, from, to, n)
}

/// Every edge starts and ends at a declared locus.
pub open spec fn edges_within(loci: Seq<Locus>, edges: Seq<Edge>) -> bool {
    forall|k: int|
        0 <= k < edges.len() ==> (exists|i: int|
            #![trigger loci[i]]
            0 <= i < loci.len() && loci[i].id@ == (#[trigger] edges[k]).from@) && (exists|i: int|
            #![trigger loci[i]]
            0 <= i < loci.len() && loci[i].id@ == edges[k].to@)
}

/// The first locus is the only one of class Supply.
pub open spec fn single_supply(loci: Seq<Locus>) -> bool {
    &&& loci.len() > 0
    &&& loci[0].class == LocusClass::Supply
    &&& forall|i: int| 0 < i < loci.len() ==> (#[trigger] loci[i]).class != LocusClass::Supply
}

/// No edge enters the supply locus.
pub open spec fn supply_has_no_inflow(loci: Seq<Locus>, edges: Seq<Edge>) -> bool {
    forall|k: int| 0 <= k < edges.len() ==> (#[trigger] edges[k]).to@ != loci[0].id@
}

/// Every edge into a transmission locus leaves the supply locus.
pub open spec fn transmission_fed_only_by_supply(loci: Seq<Locus>, edges: Seq<Edge>) -> bool {
    forall|k: int, i: int|
        0 <= k < edges.len() && 0 <= i < loci.len() && loci[i].class == LocusClass::Transmission
            && (#[trigger] edges[k]).to@ == (#[trigger] loci[i]).id@ ==> edges[k].from@
            == loci[0].id@
}

/// Every load locus has an incoming edge.
pub open spec fn loads_all_fed(loci: Seq<Locus>, edges: Seq<Edge>) -> bool {
    forall|i: int|
        0 <= i < loci.len() && (#[trigger] loci[i]).class == LocusClass::Load ==> exists|k: int|
            #![trigger edges[k]]
            0 <= k < edges.len() && edges[k].to@ == loci[i].id@
}

/// The structural properties the declared domain is built to have.
pub open spec fn well_formed_domain(loci: Seq<Locus>, edges: Seq<Edge>) -> bool {
    &&& single_supply(loci)
    &&& fed_in_order(loci, edges)
    &&& edges_within(loci, edges)
    &&& supply_has_no_inflow(loci, edges)
    &&& transmission_fed_only_by_supply(loci, edges)
}

proof fn lemma_declared_domain_well_formed()
    ensures
        well_formed_domain(declared_loci(), declared_edges()),
{
    let loci = declared_loci();
    let edges = declared_edges();
    assert(fed_by_earlier(loci, edges, 1)) by { assert(loci[0].id@ == edges[0].from@); }
    assert(fed_by_earlier(loci, edges, 2)) by { assert(loci[0].id@ == edges[1].from@); }
    assert(fed_by_earlier(loci, edges, 3)) by { assert(loci[1].id@ == edges[2].from@); }
    assert(fed_by_earlier(loci, edges, 4)) by { assert(loci[3].id@ == edges[4].from@); }
    assert(fed_by_earlier(loci, edges, 5)) by { assert(loci[3].id@ == edges[5].from@); }
    assert(fed_by_earlier(loci, edges, 6)) by { assert(loci[3].id@ == edges[6].from@); }
    assert(fed_by_earlier(loci, edges, 7)) by { assert(loci[4].id@ == edges[7].from@); }
    assert(fed_by_earlier(loci, edges, 8)) by { assert(loci[5].id@ == edges[8].from@); }
    assert(fed_by_earlier(loci, edges, 9)) by { assert(loci[6].id@ == edges[9].from@); }
    assert forall|k: int| 0 <= k < edges.len() implies (exists|i: int|
        #![trigger loci[i]]
        0 <= i < loci.len() && loci[i].id@ == (#[trigger] edges[k]).from@) && (exists|i: int|
        #![trigger loci[i]]
        0 <= i < loci.len() && loci[i].id@ == edges[k].to@) by {
        if k == 0 {
            assert(loci[0].id@ == edges[k].from@ && loci[1].id@ == edges[k].to@);
        } else if k == 1 {
            assert(loci[0].id@ == edges[k].from@ && loci[2].id@ == edges[k].to@);
        } else if k == 2 {
            assert(loci[1].id@ == edges[k].from@ && loci[3].id@ == edges[k].to@);
        } else if k == 3 {
            assert(loci[2].id@ == edges[k].from@ && loci[3].id@ == edges[k].to@);
        } else if k == 4 {
            assert(loci[3].id@ == edges[k].from@ && loci[4].id@ == edges[k].to@);
        } else if k == 5 {
            assert(loci[3].id@ == edges[k].from@ && loci[5].id@ == edges[k].to@);
        } else if k == 6 {
            assert(loci[3].id@ == edges[k].from@ && loci[6].id@ == edges[k].to@);
        } else if k == 7 {
            assert(loci[4].id@ == edges[k].from@ && loci[7].id@ == edges[k].to@);
        } else if k == 8 {
            assert(loci[5].id@ == edges[k].from@ && loci[8].id@ == edges[k].to@);
        } else {
            assert(loci[6].id@ == edges[k].from@ && loci[9].id@ == edges[k].to@);
        }
    }
    reveal_strlit("S1");
    reveal_strlit("T1");
    reveal_strlit("T2");
    reveal_strlit("D1");
    reveal_strlit("D2");
    reveal_strlit("D3");
    reveal_strlit("D4");
    reveal_strlit("L1");
    reveal_strlit("L2");
    reveal_strlit("L3");
    assert forall|k: int| 0 <= k < edges.len() implies (#[trigger] edges[k]).to@
        != loci[0].id@ by {
        assert(edges[k].to@[0] != 'S');
    }
    assert forall|k: int, i: int|
        0 <= k < edges.len() && 0 <= i < loci.len() && loci[i].class == LocusClass::Transmission
            && (#[trigger] edges[k]).to@ == (#[trigger] loci[i]).id@ implies edges[k].from@
        == loci[0].id@ by {
        assert(1 <= i <= 2);
        assert(edges[k].to@[0] == 'T');
        assert(k <= 1);
    }
}

/// Power reaches locus `i` from the first locus along at most `n` edges.
proof fn lemma_fed_in_order_reaches(loci: Seq<Locus>, edges: Seq<Edge>, i: int) -> (n: nat)
    requires
        fed_in_order(loci, edges),
        0 <= i < loci.len(),
    ensures
        reaches_within(edges, loci[0].id@, loci[i].id@, n),
    decreases i,
{
    if i == 0 {
        0
    } else {
        assert(fed_by_earlier(loci, edges, i));
        let (j, k) = choose|j: int, k: int|
            #![trigger loci[j], edges[k]]
            0 <= j < i && 0 <= k < edges.len() && edges[k].from@ == loci[j].id@ && edges[k].to@
                == loci[i].id@;
        let m = lemma_fed_in_order_reaches(loci, edges, j);
        assert(reaches_within(edges, loci[0].id@, edges[k].from@, m));
        m + 1
    }
}

/// When every locus after the first is fed from a locus declared before it,
/// power from the first locus reaches every locus of the domain.
pub proof fn lemma_fed_in_order_reaches_all(loci: Seq<Locus>, edges: Seq<Edge>)
    requires
        fed_in_order(loci, edges),
    ensures
        forall|i: int| 0 <= i < loci.len() ==> reachable(edges, loci[0].id@, #[trigger] loci[i].id@),
{
    assert forall|i: int| 0 <= i < loci.len() implies reachable(
        edges,
        loci[0].id@,
        #[trigger] loci[i].id@,
    ) by {
        let n = lemma_fed_in_order_reaches(loci, edges, i);
    }
}

/// With a single supply locus first and every other locus fed from an
/// earlier one, every load locus has an incoming edge.
pub proof fn lemma_fed_loads(loci: Seq<Locus>, edges: Seq<Edge>)
    requires
        single_supply(loci),
        fed_in_order(loci, edges),
    ensures
        loads_all_fed(loci, edges),
{
    assert forall|i: int|
        0 <= i < loci.len() && (#[trigger] loci[i]).class == LocusClass::Load implies exists|k: int|
        #![trigger edges[k]]
        0 <= k < edges.len() && edges[k].to@ == loci[i].id@ by {
        assert(i != 0);
        assert(fed_by_earlier(loci, edges, i));
    }
}

/// The single structural vulnerability of the declared domain.
pub open spec fn psps_statement() -> &'static str {
    "PSPS EXPOSURE: All power flows through PG&E transmission (S1→T1, S1→T2). \
     Lompoc Electric owns zero generation assets. A PG&E PSPS event \
     removes supply at S1 — the entire domain goes dark. \
     The city has no operational recourse."
}

/// The PSPS statement says that all power flows through PG&E transmission
/// from S1, that Lompoc owns no generation, and that losing supply at S1
/// takes the entire domain dark.
pub proof fn lemma_psps_statement_says_domain_goes_dark()
    ensures
        contains_text(psps_statement()@, "removes supply at S1 — the entire domain goes dark."@),
        contains_text(
            psps_statement()@,
            "All power flows through PG&E transmission (S1→T1, S1→T2)."@,
        ),
        contains_text(psps_statement()@, "Lompoc Electric owns zero generation assets."@),
{
    reveal_strlit("PSPS EXPOSURE: All power flows through PG&E transmission (S1→T1, S1→T2). \
     Lompoc Electric owns zero generation assets. A PG&E PSPS event \
     removes supply at S1 — the entire domain goes dark. \
     The city has no operational recourse.");
    reveal_strlit("removes supply at S1 — the entire domain goes dark.");
    reveal_strlit("All power flows through PG&E transmission (S1→T1, S1→T2).");
    reveal_strlit("Lompoc Electric owns zero generation assets.");
    let s = psps_statement()@;
    let t1 = "removes supply at S1 — the entire domain goes dark."@;
    let t2 = "All power flows through PG&E transmission (S1→T1, S1→T2)."@;
    let t3 = "Lompoc Electric owns zero generation assets."@;
    assert(s.subrange(136int, 136int + t1.len()) =~= t1);
    assert(s.subrange(15int, 15int + t2.len()) =~= t2);
    assert(s.subrange(73int, 73int + t3.len()) =~= t3);
}

/// The single structural vulnerability in the declared domain:
/// S1 → T1 and S1 → T2 are both PG&E-controlled.
/// A PSPS event at S1 removes all power to the entire domain.
/// Lompoc Electric has zero generation assets and cannot island.
pub fn psps_vulnerability() -> (r: &'static str)
    ensures
        r@ == psps_statement()@,
        r@ == "PSPS EXPOSURE: All power flows through PG&E transmission (S1→T1, S1→T2). \
            Lompoc Electric owns zero generation assets. A PG&E PSPS event \
            removes supply at S1 — the entire domain goes dark. \
            The city has no operational recourse."@,
        contains_text(r@, "removes supply at S1 — the entire domain goes dark."@),
        contains_text(r@, "All power flows through PG&E transmission (S1→T1, S1→T2)."@),
        contains_text(r@, "Lompoc Electric owns zero generation assets."@),
{
    proof {
        lemma_psps_statement_says_domain_goes_dark();
    }
    "PSPS EXPOSURE: All power flows through PG&E transmission (S1→T1, S1→T2). \
     Lompoc Electric owns zero generation assets. A PG&E PSPS event \
     removes supply at S1 — the entire domain goes dark. \
     The city has no operational recourse."
}

/// The declared edges, in order: S1→T1, S1→T2, T1→D1, T2→D1, D1→D2,
/// D1→D3, D1→D4, D2→L1, D3→L2, D4→L3.
pub proof fn lemma_declared_edge_ends()
    ensures
        declared_edges().len() == 10,
        declared_edges()[0].label@ == "wholesale power flow — line A"@,
        declared_edges()[1].label@ == "wholesale power flow — line B"@,
        declared_edges()[2].label@ == "transmission to Lompoc substation"@,
        declared_edges()[3].label@ == "transmission to Lompoc substation (redundant)"@,
        declared_edges()[4].label@ == "substation to residential distribution"@,
        declared_edges()[5].label@ == "substation to commercial distribution"@,
        declared_edges()[6].label@ == "substation to industrial distribution"@,
        declared_edges()[7].label@ == "residential delivery"@,
        declared_edges()[8].label@ == "commercial delivery"@,
        declared_edges()[9].label@ == "industrial delivery"@,
        declared_edges()[0].from@ == "S1"@ && declared_edges()[0].to@ == "T1"@,
        declared_edges()[1].from@ == "S1"@ && declared_edges()[1].to@ == "T2"@,
        declared_edges()[2].from@ == "T1"@ && declared_edges()[2].to@ == "D1"@,
        declared_edges()[3].from@ == "T2"@ && declared_edges()[3].to@ == "D1"@,
        declared_edges()[4].from@ == "D1"@ && declared_edges()[4].to@ == "D2"@,
        declared_edges()[5].from@ == "D1"@ && declared_edges()[5].to@ == "D3"@,
        declared_edges()[6].from@ == "D1"@ && declared_edges()[6].to@ == "D4"@,
        declared_edges()[7].from@ == "D2"@ && declared_edges()[7].to@ == "L1"@,
        declared_edges()[8].from@ == "D3"@ && declared_edges()[8].to@ == "L2"@,
        declared_edges()[9].from@ == "D4"@ && declared_edges()[9].to@ == "L3"@,
{
}

/// The facts that `declare_domain` promises, for the declared loci and edges.
proof fn lemma_declared_domain_facts(loci: Seq<Locus>, edges: Seq<Edge>)
    requires
        loci == declared_loci(),
        edges == declared_edges(),
    ensures
        well_formed_domain(loci, edges),
        loads_all_fed(loci, edges),
        pilot_edges_declared(edges),
        loci.len() == 10,
        forall|i: int|
            0 <= i < loci.len() ==> reachable(edges, loci[0].id@, #[trigger] loci[i].id@),
{
    lemma_declared_domain_well_formed();
    lemma_fed_in_order_reaches_all(loci, edges);
    lemma_fed_loads(loci, edges);
    assert(edges[4].from@ == "D1"@ && edges[4].to@ == "D2"@);
    assert(edges[5].from@ == "D1"@ && edges[5].to@ == "D3"@);
    assert(edges[6].from@ == "D1"@ && edges[6].to@ == "D4"@);
}

/// Declare the Lompoc electric grid domain. Returns (loci, edges).
pub fn declare_domain() -> (r: (Vec<Locus>, Vec<Edge>))
    ensures
        r.0@ == declared_loci(),
        r.1@ == declared_edges(),
        well_formed_domain(r.0@, r.1@),
        loads_all_fed(r.0@, r.1@),
        pilot_edges_declared(r.1@),
        r.0@.len() == 10,
        r.0@[0].id@ == "S1"@ && r.0@[0].class == LocusClass::Supply,
        r.0@[1].id@ == "T1"@ && r.0@[1].class == LocusClass::Transmission,
        r.0@[2].id@ == "T2"@ && r.0@[2].class == LocusClass::Transmission,
        r.0@[3].id@ == "D1"@ && r.0@[3].class == LocusClass::Distribution,
        r.0@[4].id@ == "D2"@ && r.0@[4].class == LocusClass::Distribution,
        r.0@[5].id@ == "D3"@ && r.0@[5].class == LocusClass::Distribution,
        r.0@[6].id@ == "D4"@ && r.0@[6].class == LocusClass::Distribution,
        r.0@[7].id@ == "L1"@ && r.0@[7].class == LocusClass::Load,
        r.0@[8].id@ == "L2"@ && r.0@[8].class == LocusClass::Load,
        r.0@[9].id@ == "L3"@ && r.0@[9].class == LocusClass::Load,
        classes_follow_roles(r.0@),
        r.0@[0].label@ == "PG&E wholesale purchase point"@,
        r.0@[1].label@ == "PG&E transmission line A"@,
        r.0@[2].label@ == "PG&E transmission line B"@,
        r.0@[3].label@ == "Lompoc substation / distribution entry"@,
        r.0@[4].label@ == "Residential distribution network"@,
        r.0@[5].label@ == "Commercial distribution network"@,
        r.0@[6].label@ == "Industrial distribution network"@,
        r.0@[7].label@ == "Residential load (14,423 accounts)"@,
        r.0@[8].label@ == "Commercial load (2,068 accounts)"@,
        r.0@[9].label@ == "Industrial load (25 accounts)"@,
        r.1@[0].label@ == "wholesale power flow — line A"@,
        r.1@[1].label@ == "wholesale power flow — line B"@,
        r.1@[2].label@ == "transmission to Lompoc substation"@,
        r.1@[3].label@ == "transmission to Lompoc substation (redundant)"@,
        r.1@[4].label@ == "substation to residential distribution"@,
        r.1@[5].label@ == "substation to commercial distribution"@,
        r.1@[6].label@ == "substation to industrial distribution"@,
        r.1@[7].label@ == "residential delivery"@,
        r.1@[8].label@ == "commercial delivery"@,
        r.1@[9].label@ == "industrial delivery"@,
        r.1@.len() == 10,
        r.1@[0].from@ == "S1"@ && r.1@[0].to@ == "T1"@,
        r.1@[1].from@ == "S1"@ && r.1@[1].to@ == "T2"@,
        r.1@[2].from@ == "T1"@ && r.1@[2].to@ == "D1"@,
        r.1@[3].from@ == "T2"@ && r.1@[3].to@ == "D1"@,
        r.1@[4].from@ == "D1"@ && r.1@[4].to@ == "D2"@,
        r.1@[5].from@ == "D1"@ && r.1@[5].to@ == "D3"@,
        r.1@[6].from@ == "D1"@ && r.1@[6].to@ == "D4"@,
        r.1@[7].from@ == "D2"@ && r.1@[7].to@ == "L1"@,
        r.1@[8].from@ == "D3"@ && r.1@[8].to@ == "L2"@,
        r.1@[9].from@ == "D4"@ && r.1@[9].to@ == "L3"@,
        forall|i: int|
            0 <= i < r.0@.len() ==> reachable(r.1@, r.0@[0].id@, #[trigger] r.0@[i].id@),
{
    let loci = vec![
        Locus { id: "S1", class: LocusClass::Supply, label: "PG&E wholesale purchase point" },
        Locus { id: "T1", class: LocusClass::Transmission, label: "PG&E transmission line A" },
        Locus { id: "T2", class: LocusClass::Transmission, label: "PG&E transmission line B" },
        Locus { id: "D1", class: LocusClass::Distribution, label: "Lompoc substation / distribution entry" },
        Locus { id: "D2", class: LocusClass::Distribution, label: "Residential distribution network" },
        Locus { id: "D3", class: LocusClass::Distribution, label: "Commercial distribution network" },
        Locus { id: "D4", class: LocusClass::Distribution, label: "Industrial distribution network" },
        Locus { id: "L1", class: LocusClass::Load, label: "Residential load (14,423 accounts)" },
        Locus { id: "L2", class: LocusClass::Load, label: "Commercial load (2,068 accounts)" },
        Locus { id: "L3", class: LocusClass::Load, label: "Industrial load (25 accounts)" },
    ];
    let edges = vec![
        Edge { from: "S1", to: "T1", label: "wholesale power flow — line A" },
        Edge { from: "S1", to: "T2", label: "wholesale power flow — line B" },
        Edge { from: "T1", to: "D1", label: "transmission to Lompoc substation" },
        Edge { from: "T2", to: "D1", label: "transmission to Lompoc substation (redundant)" },
        Edge { from: "D1", to: "D2", label: "substation to residential distribution" },
        Edge { from: "D1", to: "D3", label: "substation to commercial distribution" },
        Edge { from: "D1", to: "D4", label: "substation to industrial distribution" },
        Edge { from: "D2", to: "L1", label: "residential delivery" },
        Edge { from: "D3", to: "L2", label: "commercial delivery" },
        Edge { from: "D4", to: "L3", label: "industrial delivery" },
    ];
    proof {
        assert(loci@ =~= declared_loci());
        assert(edges@ =~= declared_edges());
        lemma_declared_domain_facts(loci@, edges@);
        lemma_declared_roles();
        lemma_declared_edge_ends();
    }
    (loci, edges)
}

} // verus!
