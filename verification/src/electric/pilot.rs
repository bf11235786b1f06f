//! The 90-day pilot declaration: what the pilot produces and what
//! constitutes a verifiable result, declared before measurement.

use vstd::prelude::*;
use crate::text::contains_text;
use crate::electric::domain::{declared_edges, declared_loci, Edge, Locus};

verus! {

/// Pilot declaration: duration, the declared domain it runs on, the
/// baseline, the detection threshold and the success criterion.
#[derive(Debug)]
pub struct PilotDeclaration {
    pub duration_days: u32,
    pub declared_domain_loci: u32,
    pub declared_domain_edges: u32,
    pub baseline_source: &'static str,
    /// Deviation from the declared load profile, in percent, beyond which
    /// a load anomaly is flagged.
    pub detection_threshold_pct: u32,
    pub success_criterion: &'static str,
    pub deliverable: &'static str,
}

pub open spec fn baseline_source_text() -> &'static str {
    "EIA Form 861 / public Lompoc Utilities data (2019 actuals)"
}

pub open spec fn success_criterion_text() -> &'static str {
    "At least one load anomaly detected on a declared distribution edge \
     (D1→D2, D1→D3, or D1→D4) that exceeds the 10% deviation threshold \
     and is subsequently confirmed by utility operations data. \
     Detection is declared before measurement — not fitted to results."
}

pub open spec fn deliverable_text() -> &'static str {
    "Public repository with declared domain, declared baseline, \
     declared detection criterion, and full measurement record. \
     Independently reproducible by Lompoc Utilities staff or any \
     third party with access to metered data."
}

/// The pilot's success criterion names the distribution edges D1→D2,
/// D1→D3 and D1→D4, the 10% deviation threshold, requires the detected
/// anomaly to be confirmed by utility operations data, and declares
/// detection before measurement.
pub proof fn lemma_success_criterion_requires_confirmation()
    ensures
        contains_text(success_criterion_text()@, "and is subsequently confirmed by utility operations data."@),
        contains_text(success_criterion_text()@, "(D1→D2, D1→D3, or D1→D4)"@),
        contains_text(success_criterion_text()@, "exceeds the 10% deviation threshold"@),
        contains_text(success_criterion_text()@, "Detection is declared before measurement — not fitted to results."@),
{
    reveal_strlit("At least one load anomaly detected on a declared distribution edge \
     (D1→D2, D1→D3, or D1→D4) that exceeds the 10% deviation threshold \
     and is subsequently confirmed by utility operations data. \
     Detection is declared before measurement — not fitted to results.");
    reveal_strlit("and is subsequently confirmed by utility operations data.");
    reveal_strlit("(D1→D2, D1→D3, or D1→D4)");
    reveal_strlit("exceeds the 10% deviation threshold");
    reveal_strlit("Detection is declared before measurement — not fitted to results.");
    let s = success_criterion_text()@;
    let t0 = "and is subsequently confirmed by utility operations data."@;
    assert(s.subrange(133int, 133int + t0.len()) =~= t0);
    let t1 = "(D1→D2, D1→D3, or D1→D4)"@;
    assert(s.subrange(67int, 67int + t1.len()) =~= t1);
    let t2 = "exceeds the 10% deviation threshold"@;
    assert(s.subrange(97int, 97int + t2.len()) =~= t2);
    let t3 = "Detection is declared before measurement — not fitted to results."@;
    assert(s.subrange(191int, 191int + t3.len()) =~= t3);
}

/// `p` is the declared 90-day pilot.
pub open spec fn declared_pilot(p: PilotDeclaration) -> bool {
    &&& p.duration_days == 90
    &&& p.declared_domain_loci == 10
    &&& p.declared_domain_edges == 10
    &&& p.baseline_source@ == baseline_source_text()@
    &&& p.detection_threshold_pct == 10
    &&& p.success_criterion@ == success_criterion_text()@
    &&& p.deliverable@ == deliverable_text()@
}

impl PilotDeclaration {
    /// The declared 90-day pilot.
    pub fn declare() -> (r: Self)
        ensures
            declared_pilot(r),
            r.duration_days == 90,
            r.declared_domain_loci == 10,
            r.declared_domain_edges == 10,
            r.detection_threshold_pct == 10,
            r.baseline_source@ == "EIA Form 861 / public Lompoc Utilities data (2019 actuals)"@,
            r.success_criterion@ == "At least one load anomaly detected on a declared distribution edge \
                (D1→D2, D1→D3, or D1→D4) that exceeds the 10% deviation threshold \
                and is subsequently confirmed by utility operations data. \
                Detection is declared before measurement — not fitted to results."@,
            r.deliverable@ == "Public repository with declared domain, declared baseline, \
                declared detection criterion, and full measurement record. \
                Independently reproducible by Lompoc Utilities staff or any \
                third party with access to metered data."@,
            contains_text(r.success_criterion@, "and is subsequently confirmed by utility operations data."@),
            contains_text(r.success_criterion@, "(D1→D2, D1→D3, or D1→D4)"@),
            contains_text(r.success_criterion@, "exceeds the 10% deviation threshold"@),
            contains_text(r.success_criterion@, "Detection is declared before measurement — not fitted to results."@),
    {
        proof {
            lemma_success_criterion_requires_confirmation();
        }
        PilotDeclaration {
            duration_days: 90,
            declared_domain_loci: 10,
            declared_domain_edges: 10,
            baseline_source: "EIA Form 861 / public Lompoc Utilities data (2019 actuals)",
            detection_threshold_pct: 10,
            success_criterion: "At least one load anomaly detected on a declared distribution edge \
                 (D1→D2, D1→D3, or D1→D4) that exceeds the 10% deviation threshold \
                 and is subsequently confirmed by utility operations data. \
                 Detection is declared before measurement — not fitted to results.",
            deliverable: "Public repository with declared domain, declared baseline, \
                 declared detection criterion, and full measurement record. \
                 Independently reproducible by Lompoc Utilities staff or any \
                 third party with access to metered data.",
        }
    }
}

/// The pilot runs on exactly the declared domain: its declared locus and
/// edge counts are those of the domain that `declare_domain` returns.
pub proof fn lemma_pilot_matches_domain(p: PilotDeclaration, loci: Seq<Locus>, edges: Seq<Edge>)
    requires
        declared_pilot(p),
        loci == declared_loci(),
        edges == declared_edges(),
    ensures
        p.declared_domain_loci == loci.len(),
        p.declared_domain_edges == edges.len(),
{
}

} // verus!
