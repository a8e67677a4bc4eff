//! The three price catalogs: fish, cats and trees.
//!
//! A catalog lists, for each item name, a price in whole units of the
//! currency. A cost is that price in base units, of which a whole unit has
//! 10^9. The catalogs are separate: nothing relates a name in one of them to
//! the same name in another.

use vstd::prelude::*;
use crate::error::ErrorCode;
use crate::text::{ascii_lowercase, lemma_lowercase_idempotent, lowered_is, same_text};

verus! {

/// The number of base units in one whole unit of the currency.
pub const TIC: u64 = 1_000_000_000;

/// The fish on sale and their prices in whole units. The names are in small
/// letters; a fish is looked up by its name with the ASCII capitals lowered.
pub open spec fn fish_catalog() -> Map<Seq<char>, nat> {
    map![
        "small"@ => 500nat,
        "medium"@ => 750nat,
        "large"@ => 1000nat,
    ]
}

/// The cats on sale and their prices in whole units.
pub open spec fn cat_catalog() -> Map<Seq<char>, nat> {
    map![
        "Stray"@ => 250nat,
        "Kitten"@ => 400nat,
        "Tabby"@ => 550nat,
        "Persian"@ => 700nat,
        "MaineCoon"@ => 850nat,
        "Siamese"@ => 1000nat,
        "Bengal"@ => 2000nat,
        "ShadowCat"@ => 3000nat,
    ]
}

/// The trees on sale and their prices in whole units.
pub open spec fn tree_catalog() -> Map<Seq<char>, nat> {
    map![
        "Seedling"@ => 250nat,
        "Sapling"@ => 400nat,
        "Oak"@ => 550nat,
        "Pine"@ => 700nat,
        "Redwood"@ => 850nat,
        "Willow"@ => 1000nat,
        "Baobab"@ => 1150nat,
        "Palm"@ => 1300nat,
        "Bonsai"@ => 1450nat,
        "Maple"@ => 1600nat,
        "Cactus"@ => 2150nat,
        "WorldTree"@ => 4300nat,
    ]
}

/// The cost in base units of the entry `name` of `catalog`, or `None` if the
/// catalog has no such entry.
pub open spec fn listed_cost(catalog: Map<Seq<char>, nat>, name: Seq<char>) -> Option<u64> {
    if catalog.contains_key(name) {
        Some((catalog[name] * TIC) as u64)
    } else {
        None
    }
}

/// The cost of the fish `kind`, whatever the case of its ASCII letters.
pub open spec fn fish_cost(kind: Seq<char>) -> Option<u64> {
    listed_cost(fish_catalog(), ascii_lowercase(kind))
}

/// The cost of the cat `cat_type`, spelled exactly as listed.
pub open spec fn cat_cost(cat_type: Seq<char>) -> Option<u64> {
    listed_cost(cat_catalog(), cat_type)
}

/// The cost of the tree `tree_type`, spelled exactly as listed.
pub open spec fn tree_cost(tree_type: Seq<char>) -> Option<u64> {
    listed_cost(tree_catalog(), tree_type)
}

/// What a lookup answers: the cost, or `InvalidKind` for a name that is not
/// listed.
pub open spec fn priced(cost: Option<u64>) -> Result<u64, ErrorCode> {
    match cost {
        Some(c) => Ok(c),
        None => Err(ErrorCode::InvalidKind),
    }
}

/// The length and the first letter of each fish name, which tell the names
/// apart.
proof fn lemma_fish_names()
    ensures
        "small"@.len() == 5 && "small"@[0] == 's',
        "medium"@.len() == 6 && "medium"@[0] == 'm',
        "large"@.len() == 5 && "large"@[0] == 'l',
{
    reveal_strlit("small");
    reveal_strlit("medium");
    reveal_strlit("large");
}

/// The length and the first letter of each cat name, which tell the names
/// apart.
proof fn lemma_cat_names()
    ensures
        "Stray"@.len() == 5 && "Stray"@[0] == 'S',
        "Kitten"@.len() == 6 && "Kitten"@[0] == 'K',
        "Tabby"@.len() == 5 && "Tabby"@[0] == 'T',
        "Persian"@.len() == 7 && "Persian"@[0] == 'P',
        "MaineCoon"@.len() == 9 && "MaineCoon"@[0] == 'M',
        "Siamese"@.len() == 7 && "Siamese"@[0] == 'S',
        "Bengal"@.len() == 6 && "Bengal"@[0] == 'B',
        "ShadowCat"@.len() == 9 && "ShadowCat"@[0] == 'S',
{
    reveal_strlit("Stray");
    reveal_strlit("Kitten");
    reveal_strlit("Tabby");
    reveal_strlit("Persian");
    reveal_strlit("MaineCoon");
    reveal_strlit("Siamese");
    reveal_strlit("Bengal");
    reveal_strlit("ShadowCat");
}

/// The length and the first two letters of each tree name, which tell the
/// names apart.
proof fn lemma_tree_names()
    ensures
        "Seedling"@.len() == 8 && "Seedling"@[0] == 'S' && "Seedling"@[1] == 'e',
        "Sapling"@.len() == 7 && "Sapling"@[0] == 'S' && "Sapling"@[1] == 'a',
        "Oak"@.len() == 3 && "Oak"@[0] == 'O' && "Oak"@[1] == 'a',
        "Pine"@.len() == 4 && "Pine"@[0] == 'P' && "Pine"@[1] == 'i',
        "Redwood"@.len() == 7 && "Redwood"@[0] == 'R' && "Redwood"@[1] == 'e',
        "Willow"@.len() == 6 && "Willow"@[0] == 'W' && "Willow"@[1] == 'i',
        "Baobab"@.len() == 6 && "Baobab"@[0] == 'B' && "Baobab"@[1] == 'a',
        "Palm"@.len() == 4 && "Palm"@[0] == 'P' && "Palm"@[1] == 'a',
        "Bonsai"@.len() == 6 && "Bonsai"@[0] == 'B' && "Bonsai"@[1] == 'o',
        "Maple"@.len() == 5 && "Maple"@[0] == 'M' && "Maple"@[1] == 'a',
        "Cactus"@.len() == 6 && "Cactus"@[0] == 'C' && "Cactus"@[1] == 'a',
        "WorldTree"@.len() == 9 && "WorldTree"@[0] == 'W' && "WorldTree"@[1] == 'o',
{
    reveal_strlit("Seedling");
    reveal_strlit("Sapling");
    reveal_strlit("Oak");
    reveal_strlit("Pine");
    reveal_strlit("Redwood");
    reveal_strlit("Willow");
    reveal_strlit("Baobab");
    reveal_strlit("Palm");
    reveal_strlit("Bonsai");
    reveal_strlit("Maple");
    reveal_strlit("Cactus");
    reveal_strlit("WorldTree");
}

/// Looks up the cost of a fish. The case of ASCII letters in `kind` does not
/// matter.
pub fn cost_of_fish(kind: &str) -> (cost: Result<u64, ErrorCode>)
    ensures
        cost == priced(fish_cost(kind@)),
{
    proof {
        lemma_fish_names();
    }
    if lowered_is(kind, "small") {
        Ok(500 * TIC)
    } else if lowered_is(kind, "medium") {
        Ok(750 * TIC)
    } else if lowered_is(kind, "large") {
        Ok(1000 * TIC)
    } else {
        Err(ErrorCode::InvalidKind)
    }
}

/// Looks up the cost of a cat. The name must be spelled exactly as listed.
pub fn cost_of_cat(cat_type: &str) -> (cost: Result<u64, ErrorCode>)
    ensures
        cost == priced(cat_cost(cat_type@)),
{
    proof {
        lemma_cat_names();
    }
    if same_text(cat_type, "Stray") {
        Ok(250 * TIC)
    } else if same_text(cat_type, "Kitten") {
        Ok(400 * TIC)
    } else if same_text(cat_type, "Tabby") {
        Ok(550 * TIC)
    } else if same_text(cat_type, "Persian") {
        Ok(700 * TIC)
    } else if same_text(cat_type, "MaineCoon") {
        Ok(850 * TIC)
    } else if same_text(cat_type, "Siamese") {
        Ok(1000 * TIC)
    } else if same_text(cat_type, "Bengal") {
        Ok(2000 * TIC)
    } else if same_text(cat_type, "ShadowCat") {
        Ok(3000 * TIC)
    } else {
        Err(ErrorCode::InvalidKind)
    }
}

/// Looks up the cost of a tree. The name must be spelled exactly as listed.
pub fn cost_of_tree(tree_type: &str) -> (cost: Result<u64, ErrorCode>)
    ensures
        cost == priced(tree_cost(tree_type@)),
{
    proof {
        lemma_tree_names();
    }
    if same_text(tree_type, "Seedling") {
        Ok(250 * TIC)
    } else if same_text(tree_type, "Sapling") {
        Ok(400 * TIC)
    } else if same_text(tree_type, "Oak") {
        Ok(550 * TIC)
    } else if same_text(tree_type, "Pine") {
        Ok(700 * TIC)
    } else if same_text(tree_type, "Redwood") {
        Ok(850 * TIC)
    } else if same_text(tree_type, "Willow") {
        Ok(1000 * TIC)
    } else if same_text(tree_type, "Baobab") {
        Ok(1150 * TIC)
    } else if same_text(tree_type, "Palm") {
        Ok(1300 * TIC)
    } else if same_text(tree_type, "Bonsai") {
        Ok(1450 * TIC)
    } else if same_text(tree_type, "Maple") {
        Ok(1600 * TIC)
    } else if same_text(tree_type, "Cactus") {
        Ok(2150 * TIC)
    } else if same_text(tree_type, "WorldTree") {
        Ok(4300 * TIC)
    } else {
        Err(ErrorCode::InvalidKind)
    }
}

/// The fish catalog does not tell capitals from small letters: two names
/// that agree once their ASCII capitals are lowered cost the same, and a name
/// costs what its lowered form costs.
pub proof fn lemma_fish_cost_ignores_case(a: Seq<char>, b: Seq<char>)
    ensures
        ascii_lowercase(a) == ascii_lowercase(b) ==> fish_cost(a) == fish_cost(b),
        fish_cost(ascii_lowercase(a)) == fish_cost(a),
{
    lemma_lowercase_idempotent(a);
}

/// The fish catalog in base units, entry by entry, and that it has no other
/// entry.
pub proof fn lemma_fish_price_list()
    ensures
        fish_cost("small"@) == Some(500_000_000_000u64),
        fish_cost("medium"@) == Some(750_000_000_000u64),
        fish_cost("large"@) == Some(1_000_000_000_000u64),
        forall|kind: Seq<char>| #[trigger]
            fish_cost(kind) is Some ==> {
                ||| ascii_lowercase(kind) == "small"@
                ||| ascii_lowercase(kind) == "medium"@
                ||| ascii_lowercase(kind) == "large"@
            },
{
    lemma_fish_names();
    reveal_strlit("small");
    reveal_strlit("medium");
    reveal_strlit("large");
    assert(ascii_lowercase("small"@) =~= "small"@);
    assert(ascii_lowercase("medium"@) =~= "medium"@);
    assert(ascii_lowercase("large"@) =~= "large"@);
}

/// The cat catalog in base units, entry by entry, and that it has no other
/// entry.
pub proof fn lemma_cat_price_list()
    ensures
        cat_cost("Stray"@) == Some(250_000_000_000u64),
        cat_cost("Kitten"@) == Some(400_000_000_000u64),
        cat_cost("Tabby"@) == Some(550_000_000_000u64),
        cat_cost("Persian"@) == Some(700_000_000_000u64),
        cat_cost("MaineCoon"@) == Some(850_000_000_000u64),
        cat_cost("Siamese"@) == Some(1_000_000_000_000u64),
        cat_cost("Bengal"@) == Some(2_000_000_000_000u64),
        cat_cost("ShadowCat"@) == Some(3_000_000_000_000u64),
        forall|cat_type: Seq<char>| #[trigger]
            cat_cost(cat_type) is Some ==> {
                ||| cat_type == "Stray"@
                ||| cat_type == "Kitten"@
                ||| cat_type == "Tabby"@
                ||| cat_type == "Persian"@
                ||| cat_type == "MaineCoon"@
                ||| cat_type == "Siamese"@
                ||| cat_type == "Bengal"@
                ||| cat_type == "ShadowCat"@
            },
{
    lemma_cat_names();
}

/// The tree catalog in base units, entry by entry, and that it has no other
/// entry.
pub proof fn lemma_tree_price_list()
    ensures
        tree_cost("Seedling"@) == Some(250_000_000_000u64),
        tree_cost("Sapling"@) == Some(400_000_000_000u64),
        tree_cost("Oak"@) == Some(550_000_000_000u64),
        tree_cost("Pine"@) == Some(700_000_000_000u64),
        tree_cost("Redwood"@) == Some(850_000_000_000u64),
        tree_cost("Willow"@) == Some(1_000_000_000_000u64),
        tree_cost("Baobab"@) == Some(1_150_000_000_000u64),
        tree_cost("Palm"@) == Some(1_300_000_000_000u64),
        tree_cost("Bonsai"@) == Some(1_450_000_000_000u64),
        tree_cost("Maple"@) == Some(1_600_000_000_000u64),
        tree_cost("Cactus"@) == Some(2_150_000_000_000u64),
        tree_cost("WorldTree"@) == Some(4_300_000_000_000u64),
        forall|tree_type: Seq<char>| #[trigger]
            tree_cost(tree_type) is Some ==> {
                ||| tree_type == "Seedling"@
                ||| tree_type == "Sapling"@
                ||| tree_type == "Oak"@
                ||| tree_type == "Pine"@
                ||| tree_type == "Redwood"@
                ||| tree_type == "Willow"@
                ||| tree_type == "Baobab"@
                ||| tree_type == "Palm"@
                ||| tree_type == "Bonsai"@
                ||| tree_type == "Maple"@
                ||| tree_type == "Cactus"@
                ||| tree_type == "WorldTree"@
            },
{
    lemma_tree_names();
}

/// Every cost that a catalog lists is a positive whole number of currency
/// units, written in base units.
pub proof fn lemma_listed_costs(name: Seq<char>)
    ensures
        fish_cost(name) matches Some(c) ==> c > 0 && c % TIC == 0,
        cat_cost(name) matches Some(c) ==> c > 0 && c % TIC == 0,
        tree_cost(name) matches Some(c) ==> c > 0 && c % TIC == 0,
{
    lemma_fish_names();
    lemma_cat_names();
    lemma_tree_names();
}

} // verus!
