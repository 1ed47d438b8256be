use voxelweaver::graph::node_types::{all_kinds, NodeKind};
use voxelweaver::search::{
    best_match, best_node_kind, match_scores, rank_matches, search_node_kinds,
};

fn index_of(kind: NodeKind) -> usize {
    all_kinds().iter().position(|k| *k == kind).unwrap()
}

#[test]
fn scores_come_from_the_matcher() {
    let scores = match_scores("noise");
    assert_eq!(scores.len(), 55);
    for kind in [
        NodeKind::Noise3D,
        NodeKind::Noise2D,
        NodeKind::NoiseHeightmap,
        NodeKind::FractalNoiseTerrain,
    ] {
        assert!(scores[index_of(kind)].is_some());
    }
    assert!(scores[index_of(NodeKind::Add)].is_none());
    assert!(scores[index_of(NodeKind::Position)].is_none());
    assert!(scores[index_of(NodeKind::Noise3D)] > scores[index_of(NodeKind::FractalNoiseTerrain)]);
    for (kind, score) in all_kinds().iter().zip(scores.iter()) {
        assert_eq!(*score, code_fuzzy_match::fuzzy_match(kind.label(), "noise"));
    }
    assert!(match_scores("qqq").iter().all(|s| s.is_none()));
    assert!(match_scores(&"n".repeat(65)).iter().all(|s| s.is_none()));
}

#[test]
fn ranking_orders_by_score_and_keeps_ties_in_place() {
    let scores = vec![Some(30), None, Some(50), Some(30), None, Some(50), Some(31)];
    assert_eq!(rank_matches(&scores), vec![2, 5, 6, 0, 3]);
    assert_eq!(best_match(&scores), Some(2));
}

#[test]
fn ranking_offers_only_what_scores_near_the_average() {
    // average 20: more than 19.5 is needed
    assert_eq!(rank_matches(&vec![Some(50), Some(19), Some(20), Some(1), Some(10)]), vec![0, 2]);
    // average -1: every match is offered
    assert_eq!(rank_matches(&vec![Some(1), None, None, None, Some(2), None]), vec![4, 0]);
    assert_eq!(rank_matches(&vec![None, None]), Vec::<usize>::new());
    assert_eq!(rank_matches(&vec![]), Vec::<usize>::new());
    assert_eq!(rank_matches(&vec![Some(usize::MAX), Some(usize::MAX - 1)]), vec![0]);
    assert_eq!(rank_matches(&vec![Some(usize::MAX), Some(usize::MAX)]), vec![0, 1]);
}

#[test]
fn best_entry_is_the_first_of_the_greatest() {
    assert_eq!(best_match(&vec![]), None);
    assert_eq!(best_match(&vec![None, None, None]), Some(0));
    assert_eq!(best_match(&vec![None, Some(3), Some(7), Some(7)]), Some(2));
}

#[test]
fn search_offers_matching_kinds_best_first() {
    let found = search_node_kinds("noise");
    assert!(found.contains(&NodeKind::Noise3D));
    assert!(found.contains(&NodeKind::Noise2D));
    assert!(!found.contains(&NodeKind::Add));
    let scores = match_scores("noise");
    for pair in found.windows(2) {
        assert!(scores[index_of(pair[0])] >= scores[index_of(pair[1])]);
    }
    assert_eq!(found[0], best_node_kind("noise"));
    assert!(search_node_kinds("qqq").is_empty());
    assert_eq!(search_node_kinds("Terrain Output"), vec![NodeKind::TerrainOutput]);
}

#[test]
fn confirmed_query_picks_the_best_kind() {
    assert_eq!(best_node_kind("Sin"), NodeKind::Sin);
    assert_eq!(best_node_kind("clamp"), NodeKind::Clamp);
    assert_eq!(best_node_kind("qqq"), NodeKind::TerrainOutput);
}
