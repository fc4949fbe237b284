use expression_editor_ui::demo::Scene;
use expression_editor_ui::guitar::BendFlow;

#[test]
fn every_scene_has_its_own_slug() {
    let mut slugs: Vec<&str> = Scene::ALL.iter().map(|s| s.slug()).collect();
    slugs.sort();
    slugs.dedup();
    assert_eq!(slugs.len(), Scene::ALL.len());
}

#[test]
fn slugs_and_labels_are_stable() {
    assert_eq!(Scene::Phrase.slug(), "01-phrase");
    assert_eq!(Scene::GuitarLane.slug(), "26b-guitar-bend-dimension");
    assert_eq!(Scene::Flams.slug(), "46-flams");
    assert_eq!(Scene::AllDimensions.label(), "All lanes");
    assert_eq!(Scene::GuitarBoth.label(), "Guitar — row + dimension");
}

#[test]
fn only_the_guitar_variants_move_the_bend_flow() {
    assert_eq!(Scene::GuitarLane.bend_flow(), BendFlow::Lane);
    assert_eq!(Scene::GuitarBoth.bend_flow(), BendFlow::Both);
    assert_eq!(Scene::Guitar.bend_flow(), BendFlow::OnRow);
    assert_eq!(Scene::Phrase.bend_flow(), BendFlow::OnRow);
}

#[test]
fn each_flow_draws_somewhere() {
    assert!(BendFlow::OnRow.on_row() && !BendFlow::OnRow.draws_in_lane());
    assert!(!BendFlow::Lane.on_row() && BendFlow::Lane.draws_in_lane());
    assert!(BendFlow::Both.on_row() && BendFlow::Both.draws_in_lane());
    assert_eq!(BendFlow::default(), BendFlow::OnRow);
}
