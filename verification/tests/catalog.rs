use tic_world::{cost_of_cat, cost_of_fish, cost_of_tree, ErrorCode, TIC};

#[test]
fn tic_is_ten_to_the_ninth() {
    assert_eq!(TIC, 1_000_000_000);
}

#[test]
fn fish_catalog_costs() {
    assert_eq!(cost_of_fish("small"), Ok(500_000_000_000));
    assert_eq!(cost_of_fish("medium"), Ok(750_000_000_000));
    assert_eq!(cost_of_fish("large"), Ok(1_000_000_000_000));
}

#[test]
fn cat_catalog_costs() {
    assert_eq!(cost_of_cat("Stray"), Ok(250_000_000_000));
    assert_eq!(cost_of_cat("Kitten"), Ok(400_000_000_000));
    assert_eq!(cost_of_cat("Tabby"), Ok(550_000_000_000));
    assert_eq!(cost_of_cat("Persian"), Ok(700_000_000_000));
    assert_eq!(cost_of_cat("MaineCoon"), Ok(850_000_000_000));
    assert_eq!(cost_of_cat("Siamese"), Ok(1_000_000_000_000));
    assert_eq!(cost_of_cat("Bengal"), Ok(2_000_000_000_000));
    assert_eq!(cost_of_cat("ShadowCat"), Ok(3_000_000_000_000));
}

#[test]
fn tree_catalog_costs() {
    assert_eq!(cost_of_tree("Seedling"), Ok(250_000_000_000));
    assert_eq!(cost_of_tree("Sapling"), Ok(400_000_000_000));
    assert_eq!(cost_of_tree("Oak"), Ok(550_000_000_000));
    assert_eq!(cost_of_tree("Pine"), Ok(700_000_000_000));
    assert_eq!(cost_of_tree("Redwood"), Ok(850_000_000_000));
    assert_eq!(cost_of_tree("Willow"), Ok(1_000_000_000_000));
    assert_eq!(cost_of_tree("Baobab"), Ok(1_150_000_000_000));
    assert_eq!(cost_of_tree("Palm"), Ok(1_300_000_000_000));
    assert_eq!(cost_of_tree("Bonsai"), Ok(1_450_000_000_000));
    assert_eq!(cost_of_tree("Maple"), Ok(1_600_000_000_000));
    assert_eq!(cost_of_tree("Cactus"), Ok(2_150_000_000_000));
    assert_eq!(cost_of_tree("WorldTree"), Ok(4_300_000_000_000));
}

#[test]
fn costs_are_whole_prices_times_tic() {
    assert_eq!(cost_of_fish("medium"), Ok(750 * TIC));
    assert_eq!(cost_of_cat("MaineCoon"), Ok(850 * TIC));
    assert_eq!(cost_of_tree("WorldTree"), Ok(4300 * TIC));
}

#[test]
fn fish_lookup_ignores_ascii_case() {
    assert_eq!(cost_of_fish("LARGE"), cost_of_fish("large"));
    assert_eq!(cost_of_fish("LARGE"), Ok(1_000_000_000_000));
    assert_eq!(cost_of_fish("Small"), Ok(500_000_000_000));
    assert_eq!(cost_of_fish("mEdIuM"), Ok(750_000_000_000));
}

#[test]
fn fish_lookup_rejects_unlisted_names() {
    assert_eq!(cost_of_fish(""), Err(ErrorCode::InvalidKind));
    assert_eq!(cost_of_fish("huge"), Err(ErrorCode::InvalidKind));
    assert_eq!(cost_of_fish("small "), Err(ErrorCode::InvalidKind));
    assert_eq!(cost_of_fish(" small"), Err(ErrorCode::InvalidKind));
    assert_eq!(cost_of_fish("smal"), Err(ErrorCode::InvalidKind));
    assert_eq!(cost_of_fish("smalll"), Err(ErrorCode::InvalidKind));
    assert_eq!(cost_of_fish("\u{17f}mall"), Err(ErrorCode::InvalidKind));
    assert_eq!(cost_of_fish("Stray"), Err(ErrorCode::InvalidKind));
}

#[test]
fn cat_lookup_is_case_sensitive() {
    assert_eq!(cost_of_cat("stray"), Err(ErrorCode::InvalidKind));
    assert_eq!(cost_of_cat("STRAY"), Err(ErrorCode::InvalidKind));
    assert_eq!(cost_of_cat("mainecoon"), Err(ErrorCode::InvalidKind));
    assert_eq!(cost_of_cat("Mainecoon"), Err(ErrorCode::InvalidKind));
    assert_eq!(cost_of_cat("Shadowcat"), Err(ErrorCode::InvalidKind));
}

#[test]
fn cat_lookup_rejects_unlisted_names() {
    assert_eq!(cost_of_cat(""), Err(ErrorCode::InvalidKind));
    assert_eq!(cost_of_cat("Lion"), Err(ErrorCode::InvalidKind));
    assert_eq!(cost_of_cat("Stray "), Err(ErrorCode::InvalidKind));
    assert_eq!(cost_of_cat("Oak"), Err(ErrorCode::InvalidKind));
    assert_eq!(cost_of_cat("small"), Err(ErrorCode::InvalidKind));
}

#[test]
fn tree_lookup_is_case_sensitive() {
    assert_eq!(cost_of_tree("oak"), Err(ErrorCode::InvalidKind));
    assert_eq!(cost_of_tree("OAK"), Err(ErrorCode::InvalidKind));
    assert_eq!(cost_of_tree("Worldtree"), Err(ErrorCode::InvalidKind));
    assert_eq!(cost_of_tree("worldTree"), Err(ErrorCode::InvalidKind));
}

#[test]
fn tree_lookup_rejects_unlisted_names() {
    assert_eq!(cost_of_tree(""), Err(ErrorCode::InvalidKind));
    assert_eq!(cost_of_tree("Birch"), Err(ErrorCode::InvalidKind));
    assert_eq!(cost_of_tree("Pin"), Err(ErrorCode::InvalidKind));
    assert_eq!(cost_of_tree("Pines"), Err(ErrorCode::InvalidKind));
    assert_eq!(cost_of_tree("Palm\u{0}"), Err(ErrorCode::InvalidKind));
    assert_eq!(cost_of_tree("Tabby"), Err(ErrorCode::InvalidKind));
    assert_eq!(cost_of_tree("large"), Err(ErrorCode::InvalidKind));
}

#[test]
fn names_that_differ_late_are_told_apart() {
    assert_eq!(cost_of_tree("Palm"), Ok(1_300_000_000_000));
    assert_eq!(cost_of_tree("Pine"), Ok(700_000_000_000));
    assert_eq!(cost_of_tree("Pale"), Err(ErrorCode::InvalidKind));
    assert_eq!(cost_of_tree("Baobab"), Ok(1_150_000_000_000));
    assert_eq!(cost_of_tree("Bonsai"), Ok(1_450_000_000_000));
    assert_eq!(cost_of_tree("Baobaa"), Err(ErrorCode::InvalidKind));
    assert_eq!(cost_of_cat("Siamese"), Ok(1_000_000_000_000));
    assert_eq!(cost_of_cat("Siamesf"), Err(ErrorCode::InvalidKind));
}
