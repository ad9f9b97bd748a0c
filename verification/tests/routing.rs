use rustjay_404::audio::routing::{AudioRoute, FftBand, ModulationTarget, RoutingMatrix};

#[test]
fn routes_get_fresh_ids_up_to_the_limit() {
    let mut m = RoutingMatrix::new(2);
    assert!(m.is_empty());
    assert!(m.can_add_route());
    assert_eq!(m.add_route(FftBand::Bass, ModulationTarget::PadOpacity(0)), Some(0));
    assert_eq!(m.add_route(FftBand::High, ModulationTarget::MasterOpacity), Some(1));
    assert!(!m.can_add_route());
    assert_eq!(m.add_route(FftBand::Mid, ModulationTarget::PadSpeed(3)), None);
    assert_eq!(m.len(), 2);
    assert_eq!(m.max_routes(), 2);
    m.remove_route(0);
    assert_eq!(m.len(), 1);
    // ids are not handed out twice
    assert_eq!(m.add_route(FftBand::Mid, ModulationTarget::PadSpeed(3)), Some(2));
    let ids: Vec<usize> = m.routes().iter().map(|r| r.id).collect();
    assert_eq!(ids, vec![1, 2]);
}

#[test]
fn remove_undoes_add_and_ignores_unknown_ids() {
    let mut m = RoutingMatrix::default();
    assert_eq!(m.max_routes(), 8);
    m.add_route(FftBand::SubBass, ModulationTarget::PadOpacity(1));
    let before: Vec<AudioRoute> = m.routes().to_vec();
    let id = m.add_route(FftBand::Presence, ModulationTarget::MasterOpacity).unwrap();
    m.remove_route(id);
    assert_eq!(m.routes().to_vec(), before);
    m.remove_route(42);
    assert_eq!(m.routes().to_vec(), before);
}

#[test]
fn get_route_mut_edits_one_route() {
    let mut m = RoutingMatrix::new(8);
    m.add_route(FftBand::Bass, ModulationTarget::PadOpacity(0));
    m.add_route(FftBand::Mid, ModulationTarget::PadOpacity(1));
    m.get_route_mut(1).unwrap().enabled = false;
    assert!(m.routes()[0].enabled);
    assert!(!m.routes()[1].enabled);
    assert!(m.get_route_mut(9).is_none());
    m.clear();
    assert!(m.is_empty());
    assert_eq!(m.add_route(FftBand::Bass, ModulationTarget::MasterOpacity), Some(2));
    assert_eq!(AudioRoute::new(5, FftBand::High, ModulationTarget::MasterOpacity).enabled, true);
}
