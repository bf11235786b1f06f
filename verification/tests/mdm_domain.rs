use abr_lompoc_utility::mdm_sim::domain::{abr_operator_site, declare_domain, LocusClass};

#[test]
fn exactly_one_abr_operator_site() {
    let (loci, _) = declare_domain();
    let sites: Vec<_> = loci.iter().filter(|l| l.abr_operator_site).collect();
    assert_eq!(sites.len(), 1, "Exactly one ABR operator site must be declared");
    assert_eq!(sites[0].id, "A");
}

#[test]
fn all_edges_have_direction_declared() {
    let (_, edges) = declare_domain();
    for e in &edges {
        assert!(!e.direction.is_empty(),
            "Edge {}→{} must have declared direction", e.from, e.to);
    }
}

#[test]
fn meter_locus_has_no_incoming_edges() {
    let (_, edges) = declare_domain();
    let incoming_to_m = edges.iter().filter(|e| e.to == "M").count();
    assert_eq!(incoming_to_m, 0,
        "Meter locus M is the source — no incoming edges");
}

#[test]
fn billing_locus_has_no_outgoing_edges() {
    let (_, edges) = declare_domain();
    let outgoing_from_b = edges.iter().filter(|e| e.from == "B").count();
    assert_eq!(outgoing_from_b, 0,
        "Billing locus B is the sink — no outgoing edges");
}

#[test]
fn abr_site_is_on_validated_reads_edge() {
    let (_, edges) = declare_domain();
    let v_to_a = edges.iter().any(|e| e.from == "V" && e.to == "A");
    let a_to_s = edges.iter().any(|e| e.from == "A" && e.to == "S");
    assert!(v_to_a, "Edge V→A must be declared");
    assert!(a_to_s, "Edge A→S must be declared");
}

#[test]
fn domain_has_six_loci() {
    let (loci, _) = declare_domain();
    assert_eq!(loci.len(), 6);
}

#[test]
fn domain_has_five_edges() {
    let (_, edges) = declare_domain();
    assert_eq!(edges.len(), 5);
}

#[test]
fn edges_follow_process_order() {
    let (loci, edges) = declare_domain();
    for (k, e) in edges.iter().enumerate() {
        assert_eq!(e.from, loci[k].id);
        assert_eq!(e.to, loci[k + 1].id);
    }
    let order: Vec<&str> = loci.iter().map(|l| l.id).collect();
    assert_eq!(order, vec!["M", "H", "V", "A", "S", "B"]);
}

#[test]
fn operator_site_is_anomaly_detection_between_vee_and_storage() {
    let (loci, _) = declare_domain();
    assert_eq!(loci[3].class, LocusClass::AnomalyDetection);
    assert_eq!(loci[2].class, LocusClass::VEE);
    assert_eq!(loci[4].class, LocusClass::Storage);
}

#[test]
fn operator_site_statement_names_locus_a() {
    let s = abr_operator_site();
    assert!(s.starts_with("Locus A (AnomalyDetection) on edge V→A→S. Input: validated interval reads"));
    assert!(s.ends_with("consecutive interval reads on each declared meter edge."));
}
