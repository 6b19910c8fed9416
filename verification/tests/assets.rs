use zenflow::assets::relative_prefix;
use zenflow::assets::search_script_at_depth;
use zenflow::assets::search_script_path;

#[test]
fn relative_prefix_at_root() {
    assert_eq!(relative_prefix(0), ".");
}

#[test]
fn relative_prefix_depth_one() {
    assert_eq!(relative_prefix(1), "../");
}

#[test]
fn relative_prefix_depth_two() {
    assert_eq!(relative_prefix(2), "../../");
}

#[test]
fn relative_prefix_counts_updirs() {
    for depth in 0..8 {
        let p = relative_prefix(depth);
        assert_eq!(p.matches("../").count(), depth);
        assert_eq!(p == ".", depth == 0);
    }
}

#[test]
fn search_script_at_root() {
    assert_eq!(
        search_script_at_depth(0),
        "./assets/thought-search/thought-search.js"
    );
}

#[test]
fn search_script_at_depth_two() {
    assert_eq!(
        search_script_at_depth(2),
        "../../assets/thought-search/thought-search.js"
    );
}

#[test]
fn search_script_prefix_agrees_with_relative_prefix() {
    for depth in 0..8 {
        let s = search_script_at_depth(depth);
        assert!(s.ends_with("assets/thought-search/thought-search.js"));
        let mut prefix = relative_prefix(depth);
        if !prefix.ends_with('/') {
            prefix.push('/');
        }
        assert!(s.starts_with(&prefix));
        assert_eq!(s.len(), prefix.len() + "assets/thought-search/thought-search.js".len());
    }
}

#[test]
fn search_script_path_is_bundle() {
    assert_eq!(search_script_path(), "assets/thought-search/thought-search.js");
}
