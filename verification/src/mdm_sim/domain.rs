//! The MDM process declared as a directed relational system D.
//!
//! Each locus is a process stage; each edge is the direction of data flow
//! through the meter-to-bill process:
//!   M — Meter, H — HeadEnd, V — VEE, A — AnomalyDetection,
//!   S — Storage, B — Billing.
//! The relational operators act at locus A, between V and S.

use vstd::prelude::*;
use crate::text::contains_text;

verus! {

#[derive(Debug, Clone, PartialEq, Eq, Structural)]
pub enum LocusClass {
    Meter,
    HeadEnd,
    VEE,
    Storage,
    Billing,
    AnomalyDetection,
}

#[derive(Debug, Clone)]
pub struct Locus {
    pub id: &'static str,
    pub class: LocusClass,
    pub label: &'static str,
    pub abr_operator_site: bool,
}

#[derive(Debug, Clone)]
pub struct Edge {
    pub from: &'static str,
    pub to: &'static str,
    pub label: &'static str,
    /// The observable property that establishes the edge's direction.
    pub direction: &'static str,
}

/// The declared process stages, in process order.
pub open spec fn declared_loci() -> Seq<Locus> {
    seq![
        Locus {
            id: "M",
            class: LocusClass::Meter,
            label: "Smart meter endpoints (16,516 electric + ~16,000 water)",
            abr_operator_site: false,
        },
        Locus {
            id: "H",
            class: LocusClass::HeadEnd,
            label: "AMI head-end: raw interval read collection",
            abr_operator_site: false,
        },
        Locus {
            id: "V",
            class: LocusClass::VEE,
            label: "VEE: validation, estimation, editing of raw reads",
            abr_operator_site: false,
        },
        Locus {
            id: "A",
            class: LocusClass::AnomalyDetection,
            label: "ABR relational anomaly detection (Metatron MDM layer)",
            abr_operator_site: true,
        },
        Locus {
            id: "S",
            class: LocusClass::Storage,
            label: "Storage: validated, anomaly-flagged read repository",
            abr_operator_site: false,
        },
        Locus {
            id: "B",
            class: LocusClass::Billing,
            label: "Billing: bill generation from validated reads",
            abr_operator_site: false,
        },
    ]
}

/// The declared data-flow edges, in process order.
pub open spec fn declared_edges() -> Seq<Edge> {
    seq![
        Edge {
            from: "M",
            to: "H",
            label: "interval read transmission",
            direction: "meter → head-end (radio/network, one direction)",
        },
        Edge {
            from: "H",
            to: "V",
            label: "raw reads passed to VEE",
            direction: "collection precedes validation (process order)",
        },
        Edge {
            from: "V",
            to: "A",
            label: "validated reads passed to ABR anomaly layer",
            direction: "validation precedes relational detection (process order)",
        },
        Edge {
            from: "A",
            to: "S",
            label: "anomaly-flagged reads committed to storage",
            direction: "detection precedes storage (process order)",
        },
        Edge {
            from: "S",
            to: "B",
            label: "validated reads pulled for billing",
            direction: "storage precedes billing (process order)",
        },
    ]
}

/// The edges link the loci one after another, in declaration order:
/// edge `k` runs from locus `k` to locus `k + 1`.
pub open spec fn process_chain(loci: Seq<Locus>, edges: Seq<Edge>) -> bool {
    &&& edges.len() + 1 == loci.len()
    &&& forall|k: int|
        0 <= k < edges.len() ==> (#[trigger] edges[k]).from@ == loci[k].id@ && edges[k].to@
            == loci[k + 1].id@
}

/// No two loci share an id.
pub open spec fn distinct_ids(loci: Seq<Locus>) -> bool {
    forall|i: int, j: int|
        0 <= i < loci.len() && 0 <= j < loci.len() && i != j ==> (#[trigger] loci[i]).id@
            != (#[trigger] loci[j]).id@
}

/// Exactly one locus is an operator site: the anomaly-detection stage,
/// which sits between the VEE stage and the storage stage.
pub open spec fn single_operator_site(loci: Seq<Locus>, site: int) -> bool {
    &&& 0 < site < loci.len() - 1
    &&& loci[site].abr_operator_site
    &&& loci[site].class == LocusClass::AnomalyDetection
    &&& loci[site - 1].class == LocusClass::VEE
    &&& loci[site + 1].class == LocusClass::Storage
    &&& forall|j: int| 0 <= j < loci.len() && j != site ==> !(#[trigger] loci[j]).abr_operator_site
}

/// Every edge declares a non-empty direction.
pub open spec fn directions_declared(edges: Seq<Edge>) -> bool {
    forall|k: int| 0 <= k < edges.len() ==> (#[trigger] edges[k]).direction@.len() > 0
}

/// No edge enters the first locus and no edge leaves the last one.
pub open spec fn source_and_sink(loci: Seq<Locus>, edges: Seq<Edge>) -> bool {
    forall|k: int|
        0 <= k < edges.len() ==> (#[trigger] edges[k]).to@ != loci[0].id@ && edges[k].from@
            != loci[loci.len() - 1].id@
}

/// A process chain over loci with distinct ids has the first locus as its
/// only source and the last as its only sink.
pub proof fn lemma_chain_source_and_sink(loci: Seq<Locus>, edges: Seq<Edge>)
    requires
        process_chain(loci, edges),
        distinct_ids(loci),
    ensures
        source_and_sink(loci, edges),
{
    assert forall|k: int| 0 <= k < edges.len() implies (#[trigger] edges[k]).to@ != loci[0].id@
        && edges[k].from@ != loci[loci.len() - 1].id@ by {
        assert(loci[k + 1].id@ != loci[0].id@);
        assert(loci[k].id@ != loci[loci.len() - 1].id@);
    }
}

proof fn lemma_declared_domain_shape()
    ensures
        process_chain(declared_loci(), declared_edges()),
        distinct_ids(declared_loci()),
        single_operator_site(declared_loci(), 3),
        directions_declared(declared_edges()),
{
    let loci = declared_loci();
    let edges = declared_edges();
    reveal_strlit("M");
    reveal_strlit("H");
    reveal_strlit("V");
    reveal_strlit("A");
    reveal_strlit("S");
    reveal_strlit("B");
    assert forall|i: int, j: int|
        0 <= i < loci.len() && 0 <= j < loci.len() && i != j implies (#[trigger] loci[i]).id@
        != (#[trigger] loci[j]).id@ by {
        assert(loci[i].id@[0] != loci[j].id@[0]);
    }
    reveal_strlit("meter → head-end (radio/network, one direction)");
    reveal_strlit("collection precedes validation (process order)");
    reveal_strlit("validation precedes relational detection (process order)");
    reveal_strlit("detection precedes storage (process order)");
    reveal_strlit("storage precedes billing (process order)");
}

/// The stages of the declared process, in order, are the meter M, the
/// head-end H, VEE V, anomaly detection A, storage S and billing B, each
/// of its own class; only A is an operator site.
pub proof fn lemma_declared_stages()
    ensures
        declared_loci().len() == 6,
        declared_loci()[0].label@ == "Smart meter endpoints (16,516 electric + ~16,000 water)"@,
        declared_loci()[1].label@ == "AMI head-end: raw interval read collection"@,
        declared_loci()[2].label@ == "VEE: validation, estimation, editing of raw reads"@,
        declared_loci()[3].label@ == "ABR relational anomaly detection (Metatron MDM layer)"@,
        declared_loci()[4].label@ == "Storage: validated, anomaly-flagged read repository"@,
        declared_loci()[5].label@ == "Billing: bill generation from validated reads"@,
        declared_loci()[0].id@ == "M"@ && declared_loci()[0].class == LocusClass::Meter && !declared_loci()[0].abr_operator_site,
        declared_loci()[1].id@ == "H"@ && declared_loci()[1].class == LocusClass::HeadEnd && !declared_loci()[1].abr_operator_site,
        declared_loci()[2].id@ == "V"@ && declared_loci()[2].class == LocusClass::VEE && !declared_loci()[2].abr_operator_site,
        declared_loci()[3].id@ == "A"@ && declared_loci()[3].class == LocusClass::AnomalyDetection && declared_loci()[3].abr_operator_site,
        declared_loci()[4].id@ == "S"@ && declared_loci()[4].class == LocusClass::Storage && !declared_loci()[4].abr_operator_site,
        declared_loci()[5].id@ == "B"@ && declared_loci()[5].class == LocusClass::Billing && !declared_loci()[5].abr_operator_site,
{
    reveal_strlit("M");
    reveal_strlit("H");
    reveal_strlit("V");
    reveal_strlit("A");
    reveal_strlit("S");
    reveal_strlit("B");
}

/// The declared data-flow edges carry these labels and directions, in order.
pub proof fn lemma_declared_flows()
    ensures
        declared_edges().len() == 5,
        declared_edges()[0].label@ == "interval read transmission"@,
        declared_edges()[1].label@ == "raw reads passed to VEE"@,
        declared_edges()[2].label@ == "validated reads passed to ABR anomaly layer"@,
        declared_edges()[3].label@ == "anomaly-flagged reads committed to storage"@,
        declared_edges()[4].label@ == "validated reads pulled for billing"@,
        declared_edges()[0].direction@ == "meter → head-end (radio/network, one direction)"@,
        declared_edges()[1].direction@ == "collection precedes validation (process order)"@,
        declared_edges()[2].direction@ == "validation precedes relational detection (process order)"@,
        declared_edges()[3].direction@ == "detection precedes storage (process order)"@,
        declared_edges()[4].direction@ == "storage precedes billing (process order)"@,
{
}

/// Declare the MDM process domain. Returns (loci, edges).
pub fn declare_domain() -> (r: (Vec<Locus>, Vec<Edge>))
    ensures
        r.0@ == declared_loci(),
        r.1@ == declared_edges(),
        process_chain(r.0@, r.1@),
        distinct_ids(r.0@),
        single_operator_site(r.0@, 3),
        r.0@[3].id@ == "A"@,
        directions_declared(r.1@),
        source_and_sink(r.0@, r.1@),
        r.0@.len() == 6,
        r.0@[0].label@ == "Smart meter endpoints (16,516 electric + ~16,000 water)"@,
        r.0@[1].label@ == "AMI head-end: raw interval read collection"@,
        r.0@[2].label@ == "VEE: validation, estimation, editing of raw reads"@,
        r.0@[3].label@ == "ABR relational anomaly detection (Metatron MDM layer)"@,
        r.0@[4].label@ == "Storage: validated, anomaly-flagged read repository"@,
        r.0@[5].label@ == "Billing: bill generation from validated reads"@,
        r.1@.len() == 5,
        r.1@[0].label@ == "interval read transmission"@,
        r.1@[1].label@ == "raw reads passed to VEE"@,
        r.1@[2].label@ == "validated reads passed to ABR anomaly layer"@,
        r.1@[3].label@ == "anomaly-flagged reads committed to storage"@,
        r.1@[4].label@ == "validated reads pulled for billing"@,
        r.1@[0].direction@ == "meter → head-end (radio/network, one direction)"@,
        r.1@[1].direction@ == "collection precedes validation (process order)"@,
        r.1@[2].direction@ == "validation precedes relational detection (process order)"@,
        r.1@[3].direction@ == "detection precedes storage (process order)"@,
        r.1@[4].direction@ == "storage precedes billing (process order)"@,
        r.0@[0].id@ == "M"@ && r.0@[0].class == LocusClass::Meter && !r.0@[0].abr_operator_site,
        r.0@[1].id@ == "H"@ && r.0@[1].class == LocusClass::HeadEnd && !r.0@[1].abr_operator_site,
        r.0@[2].id@ == "V"@ && r.0@[2].class == LocusClass::VEE && !r.0@[2].abr_operator_site,
        r.0@[3].id@ == "A"@ && r.0@[3].class == LocusClass::AnomalyDetection && r.0@[3].abr_operator_site,
        r.0@[4].id@ == "S"@ && r.0@[4].class == LocusClass::Storage && !r.0@[4].abr_operator_site,
        r.0@[5].id@ == "B"@ && r.0@[5].class == LocusClass::Billing && !r.0@[5].abr_operator_site,
{
    let loci = vec![
        Locus {
            id: "M",
            class: LocusClass::Meter,
            label: "Smart meter endpoints (16,516 electric + ~16,000 water)",
            abr_operator_site: false,
        },
        Locus {
            id: "H",
            class: LocusClass::HeadEnd,
            label: "AMI head-end: raw interval read collection",
            abr_operator_site: false,
        },
        Locus {
            id: "V",
            class: LocusClass::VEE,
            label: "VEE: validation, estimation, editing of raw reads",
            abr_operator_site: false,
        },
        Locus {
            id: "A",
            class: LocusClass::AnomalyDetection,
            label: "ABR relational anomaly detection (Metatron MDM layer)",
            abr_operator_site: true,
        },
        Locus {
            id: "S",
            class: LocusClass::Storage,
            label: "Storage: validated, anomaly-flagged read repository",
            abr_operator_site: false,
        },
        Locus {
            id: "B",
            class: LocusClass::Billing,
            label: "Billing: bill generation from validated reads",
            abr_operator_site: false,
        },
    ];
    let edges = vec![
        Edge {
            from: "M",
            to: "H",
            label: "interval read transmission",
            direction: "meter → head-end (radio/network, one direction)",
        },
        Edge {
            from: "H",
            to: "V",
            label: "raw reads passed to VEE",
            direction: "collection precedes validation (process order)",
        },
        Edge {
            from: "V",
            to: "A",
            label: "validated reads passed to ABR anomaly layer",
            direction: "validation precedes relational detection (process order)",
        },
        Edge {
            from: "A",
            to: "S",
            label: "anomaly-flagged reads committed to storage",
            direction: "detection precedes storage (process order)",
        },
        Edge {
            from: "S",
            to: "B",
            label: "validated reads pulled for billing",
            direction: "storage precedes billing (process order)",
        },
    ];
    proof {
        assert(loci@ =~= declared_loci());
        assert(edges@ =~= declared_edges());
        lemma_declared_domain_shape();
        lemma_chain_source_and_sink(loci@, edges@);
        lemma_declared_stages();
        lemma_declared_flows();
    }
    (loci, edges)
}

/// The statement of where the relational operators act.
pub open spec fn operator_site_statement() -> &'static str {
    "Locus A (AnomalyDetection) on edge V→A→S. \
     Input: validated interval reads — declared sequence {M(o₁),...,M(oₙ)} \
     where each oₖ is a meter read at one declared billing interval. \
     Direction: process order (validation precedes detection precedes storage). \
     Operators: Δ applied across declared adjacency relations between \
     consecutive interval reads on each declared meter edge."
}

/// The operator-site statement places the operators at locus A on edge
/// V→A→S, in process order, and applies Δ only across declared adjacency
/// relations between consecutive interval reads of one meter.
pub proof fn lemma_operator_site_statement()
    ensures
        contains_text(operator_site_statement()@, "Operators: Δ applied across declared adjacency relations between consecutive interval reads on each declared meter edge."@),
        contains_text(operator_site_statement()@, "Locus A (AnomalyDetection) on edge V→A→S."@),
        contains_text(operator_site_statement()@, "Direction: process order (validation precedes detection precedes storage)."@),
{
    reveal_strlit("Locus A (AnomalyDetection) on edge V→A→S. \
     Input: validated interval reads — declared sequence {M(o₁),...,M(oₙ)} \
     where each oₖ is a meter read at one declared billing interval. \
     Direction: process order (validation precedes detection precedes storage). \
     Operators: Δ applied across declared adjacency relations between \
     consecutive interval reads on each declared meter edge.");
    reveal_strlit("Operators: Δ applied across declared adjacency relations between consecutive interval reads on each declared meter edge.");
    reveal_strlit("Locus A (AnomalyDetection) on edge V→A→S.");
    reveal_strlit("Direction: process order (validation precedes detection precedes storage).");
    let s = operator_site_statement()@;
    let t0 = "Operators: Δ applied across declared adjacency relations between consecutive interval reads on each declared meter edge."@;
    assert(s.subrange(251int, 251int + t0.len()) =~= t0);
    let t1 = "Locus A (AnomalyDetection) on edge V→A→S."@;
    assert(s.subrange(0int, 0int + t1.len()) =~= t1);
    let t2 = "Direction: process order (validation precedes detection precedes storage)."@;
    assert(s.subrange(176int, 176int + t2.len()) =~= t2);
}

/// The ABR operator site: locus A on edge V→A→S.
/// This is where Δ (change detection) and the relational field operators
/// act on the validated interval data stream from M through H and V.
pub fn abr_operator_site() -> (r: &'static str)
    ensures
        r@ == operator_site_statement()@,
        r@ == "Locus A (AnomalyDetection) on edge V→A→S. \
            Input: validated interval reads — declared sequence {M(o₁),...,M(oₙ)} \
            where each oₖ is a meter read at one declared billing interval. \
            Direction: process order (validation precedes detection precedes storage). \
            Operators: Δ applied across declared adjacency relations between \
            consecutive interval reads on each declared meter edge."@,
        contains_text(r@, "Operators: Δ applied across declared adjacency relations between consecutive interval reads on each declared meter edge."@),
        contains_text(r@, "Locus A (AnomalyDetection) on edge V→A→S."@),
        contains_text(r@, "Direction: process order (validation precedes detection precedes storage)."@),
{
    proof {
        lemma_operator_site_statement();
    }
    "Locus A (AnomalyDetection) on edge V→A→S. \
     Input: validated interval reads — declared sequence {M(o₁),...,M(oₙ)} \
     where each oₖ is a meter read at one declared billing interval. \
     Direction: process order (validation precedes detection precedes storage). \
     Operators: Δ applied across declared adjacency relations between \
     consecutive interval reads on each declared meter edge."
}

} // verus!
