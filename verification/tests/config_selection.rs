use render_core::config::{select_config, ConfigInfo};

fn cfg(supports_transparency: bool, num_samples: u8) -> ConfigInfo {
    ConfigInfo {
        supports_transparency,
        num_samples,
    }
}

#[test]
fn transparency_beats_any_sample_count() {
    // Tie-break order: transparency support first, sample count second.
    let configs = vec![cfg(false, 0), cfg(false, 4), cfg(true, 0)];
    assert_eq!(select_config(&configs), Some(2));
}

#[test]
fn no_candidates_selects_nothing() {
    let configs: Vec<ConfigInfo> = Vec::new();
    assert_eq!(select_config(&configs), None);
}

#[test]
fn highest_sample_count_without_transparency() {
    let configs = vec![cfg(false, 2), cfg(false, 8), cfg(false, 4)];
    assert_eq!(select_config(&configs), Some(1));
}

#[test]
fn highest_sample_count_among_transparent() {
    let configs = vec![cfg(true, 2), cfg(false, 16), cfg(true, 8), cfg(true, 4)];
    assert_eq!(select_config(&configs), Some(2));
}

#[test]
fn equal_candidates_keep_the_first() {
    let configs = vec![cfg(true, 4), cfg(true, 4), cfg(true, 4)];
    assert_eq!(select_config(&configs), Some(0));
}

#[test]
fn single_candidate_is_selected() {
    let configs = vec![cfg(false, 0)];
    assert_eq!(select_config(&configs), Some(0));
}
