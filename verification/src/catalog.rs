//! Building the catalog: what a game entry holds after its key was checked.
//!
//! A game whose key is valid comes with its categories and weapons; any
//! other game is listed by name, with its key and the verdict on it, and
//! holds no catalog data. Catalog data that is stored locally is never used
//! without a valid key.

use crate::table::{distinct_keys, entries_map, key_at, lemma_entry_in_map, Entry, IdTable};
use crate::types::{Category, Game, KeyStatus, KeyStatusResponse, Loadout, Weapon};
use vstd::prelude::*;

verus! {

/// A game that is listed by name only.
pub fn basic_game(name: String) -> (game: Game)
    ensures
        game.name == name,
        game.key is None,
        game.key_status is None,
        game.categories is None,
        game.weapons is None,
{
    Game { name, key: None, key_status: None, categories: None, weapons: None }
}

/// A locally stored game that the server does not list: its name, key and
/// verdict are kept, its catalog data is dropped.
pub fn local_only_game(name: String, local: Game) -> (game: Game)
    ensures
        game.name == name,
        game.key == local.key,
        game.key_status == local.key_status,
        game.categories is None,
        game.weapons is None,
{
    Game { name, key: local.key, key_status: local.key_status, categories: None, weapons: None }
}

/// The key that a verdict names, and the verdict as it is stored.
pub open spec fn refusal(response: KeyStatusResponse) -> (String, KeyStatus) {
    match response {
        KeyStatusResponse::Invalid { key } => (key, KeyStatus::Invalid { key }),
        KeyStatusResponse::Expired { key, timestamp } => (
            key,
            KeyStatus::Expired { key, timestamp },
        ),
        KeyStatusResponse::Banned { key } => (key, KeyStatus::Banned { key }),
        KeyStatusResponse::HWIDMismatch { key } => (key, KeyStatus::HWIDMismatch { key }),
        KeyStatusResponse::Valid { key, timestamp, .. } => (
            key,
            KeyStatus::Valid { key, timestamp },
        ),
    }
}

/// A game whose key was refused: listed by name with the key and the verdict, without catalog data.
pub fn refused_game(name: String, key: String, status: KeyStatus) -> (game: Game)
    ensures
        game.name == name,
        game.key == Some(key),
        game.key_status == Some(status),
        game.categories is None,
        game.weapons is None,
{
    Game { name, key: Some(key), key_status: Some(status), categories: None, weapons: None }
}

/// A category as a plain value: its name and its loadouts in order.
pub struct CategoryModel {
    pub name: Seq<char>,
    pub loadouts: Seq<Loadout>,
}

/// The plain value of a category.
pub open spec fn category_model(category: Category) -> CategoryModel {
    CategoryModel { name: category.name@, loadouts: category.loadouts@ }
}

/// The plain values of a sequence of categories.
pub open spec fn category_models(categories: Seq<Category>) -> Seq<CategoryModel> {
    categories.map_values(|category: Category| category_model(category))
}

/// Whether one of `loadouts` is named `name`.
pub open spec fn has_loadout(loadouts: Seq<Loadout>, name: Seq<char>) -> bool {
    exists|i: int| 0 <= i < loadouts.len() && (#[trigger] loadouts[i]).name@ == name
}

/// `local` followed by those of `remote`, in order, whose name is new.
pub open spec fn merged_loadouts(local: Seq<Loadout>, remote: Seq<Loadout>) -> Seq<Loadout>
    decreases remote.len(),
{
    if remote.len() == 0 {
        local
    } else {
        let so_far = merged_loadouts(local, remote.drop_last());
        if has_loadout(so_far, remote.last().name@) {
            so_far
        } else {
            so_far.push(remote.last())
        }
    }
}

/// The position of the first of the first `n` categories that is named `name`.
pub open spec fn first_named(categories: Seq<CategoryModel>, name: Seq<char>, n: nat) -> Option<
    int,
>
    decreases n,
{
    if n == 0 {
        None
    } else {
        match first_named(categories, name, (n - 1) as nat) {
            Some(i) => Some(i),
            None => if categories[n - 1].name == name {
                Some(n - 1)
            } else {
                None
            },
        }
    }
}

/// `local` with one remote category merged in: its new loadouts go to the
/// first local category of its name, or the category is added at the end.
pub open spec fn with_category(local: Seq<CategoryModel>, remote: CategoryModel) -> Seq<
    CategoryModel,
> {
    match first_named(local, remote.name, local.len()) {
        Some(i) => local.update(
            i,
            CategoryModel {
                name: local[i].name,
                loadouts: merged_loadouts(local[i].loadouts, remote.loadouts),
            },
        ),
        None => local.push(remote),
    }
}

/// `local` with the categories of `remote` merged in, in order.
pub open spec fn merged_categories(
    local: Seq<CategoryModel>,
    remote: Seq<CategoryModel>,
) -> Seq<CategoryModel>
    decreases remote.len(),
{
    if remote.len() == 0 {
        local
    } else {
        with_category(merged_categories(local, remote.drop_last()), remote.last())
    }
}

/// Says whether one of `loadouts` is named `name`.
fn has_loadout_named(loadouts: &Vec<Loadout>, name: &String) -> (found: bool)
    ensures
        found == has_loadout(loadouts@, name@),
{
    let mut i: usize = 0;
    while i < loadouts.len()
        invariant
            i <= loadouts@.len(),
            forall|j: int| 0 <= j < i ==> (#[trigger] loadouts@[j]).name@ != name@,
        decreases loadouts@.len() - i,
    {
        if loadouts[i].name == *name {
            return true;
        }
        i += 1;
    }
    false
}

/// Adds those of `remote` to `local`, in order, whose name is new.
fn merge_loadouts(local: &mut Vec<Loadout>, remote: Vec<Loadout>)
    ensures
        final(local)@ == merged_loadouts(old(local)@, remote@),
{
    let ghost all = remote@;
    let mut remote = remote;
    let ghost mut taken: int = 0;
    while remote.len() > 0
        invariant
            0 <= taken,
            taken + remote@.len() == all.len(),
            remote@ == all.subrange(taken, all.len() as int),
            local@ == merged_loadouts(old(local)@, all.take(taken)),
        decreases remote@.len(),
    {
        let loadout = remote.remove(0);
        proof {
            assert(loadout == all[taken]);
            assert(all.take(taken + 1).drop_last() =~= all.take(taken));
            assert(all.take(taken + 1).last() == loadout);
            assert(remote@ =~= all.subrange(taken + 1, all.len() as int));
        }
        if !has_loadout_named(local, &loadout.name) {
            local.push(loadout);
        }
        proof {
            taken = taken + 1;
        }
    }
    assert(all.take(taken) =~= all);
}

/// Finds the first of `categories` that is named `name`.
fn find_category(categories: &Vec<Category>, name: &String) -> (found: Option<usize>)
    ensures
        match found {
            Some(i) => first_named(category_models(categories@), name@, categories@.len())
                == Some(i as int) && i < categories@.len(),
            None => first_named(category_models(categories@), name@, categories@.len()) is None,
        },
{
    let ghost models = category_models(categories@);
    let mut i: usize = 0;
    while i < categories.len()
        invariant
            i <= categories@.len(),
            models == category_models(categories@),
            first_named(models, name@, i as nat) is None,
        decreases categories@.len() - i,
    {
        if categories[i].name == *name {
            proof {
                lemma_first_named_stays(models, name@, (i + 1) as nat, categories@.len());
            }
            return Some(i);
        }
        i += 1;
    }
    None
}

/// Once a category of the name is found among the first `n`, it is the answer for every longer prefix.
proof fn lemma_first_named_stays(
    categories: Seq<CategoryModel>,
    name: Seq<char>,
    n: nat,
    m: nat,
)
    requires
        n <= m,
        first_named(categories, name, n) is Some,
    ensures
        first_named(categories, name, m) == first_named(categories, name, n),
    decreases m - n,
{
    if n < m {
        lemma_first_named_stays(categories, name, n, (m - 1) as nat);
    }
}

/// Merges the categories of `remote` into `local`, in order.
fn merge_categories(local: &mut Vec<Category>, remote: Vec<Category>)
    ensures
        category_models(final(local)@) == merged_categories(
            category_models(old(local)@),
            category_models(remote@),
        ),
{
    let ghost all = remote@;
    let ghost all_models = category_models(remote@);
    let ghost start = category_models(local@);
    let mut remote = remote;
    let ghost mut taken: int = 0;
    while remote.len() > 0
        invariant
            0 <= taken,
            taken + remote@.len() == all.len(),
            remote@ == all.subrange(taken, all.len() as int),
            all_models == category_models(all),
            category_models(local@) == merged_categories(start, all_models.take(taken)),
        decreases remote@.len(),
    {
        let ghost before = category_models(local@);
        let category = remote.remove(0);
        proof {
            assert(category == all[taken]);
            assert(all_models.take(taken + 1).drop_last() =~= all_models.take(taken));
            assert(all_models.take(taken + 1).last() == category_model(category));
            assert(remote@ =~= all.subrange(taken + 1, all.len() as int));
        }
        match find_category(local, &category.name) {
            Some(i) => {
                let Category { name, loadouts } = category;
                merge_loadouts(&mut local[i].loadouts, loadouts);
                assert(category_models(local@) =~= with_category(
                    before,
                    category_model(category),
                ));
            },
            None => {
                local.push(category);
                assert(category_models(local@) =~= with_category(
                    before,
                    category_model(category),
                ));
            },
        }
        proof {
            taken = taken + 1;
        }
    }
    assert(all_models.take(taken) =~= all_models);
}

/// Whether `key` is stored in `entries` at position `from` or later.
pub open spec fn stored_from<V>(entries: Seq<Entry<V>>, key: Seq<char>, from: int) -> bool {
    exists|j: int| from <= j && key_at(entries, key, j)
}

proof fn lemma_stored_from_step<V>(entries: Seq<Entry<V>>, key: Seq<char>, from: int)
    requires
        0 <= from,
    ensures
        stored_from(entries, key, from) <==> key_at(entries, key, from) || stored_from(
            entries,
            key,
            from + 1,
        ),
{
    if stored_from(entries, key, from) {
        let j = choose|j: int| from <= j && key_at(entries, key, j);
        if j != from {
            assert(from + 1 <= j && key_at(entries, key, j));
        }
    }
    if stored_from(entries, key, from + 1) {
        let j = choose|j: int| from + 1 <= j && key_at(entries, key, j);
        assert(from <= j && key_at(entries, key, j));
    }
    if key_at(entries, key, from) {
        assert(from <= from && key_at(entries, key, from));
    }
}

/// Adds those weapons of `remote` to `local` whose identifier is new; a
/// weapon that `local` holds already stays as it is.
fn merge_weapons(local: &mut IdTable<Weapon>, remote: IdTable<Weapon>)
    ensures
        final(local)@ == remote@.union_prefer_right(old(local)@),
{
    let ghost start = local@;
    let ghost offered = remote@;
    let mut entries = remote.into_entries();
    let ghost all = entries@;
    while entries.len() > 0
        invariant
            distinct_keys(all),
            entries_map(all) == offered,
            entries@.len() <= all.len(),
            entries@ == all.take(entries@.len() as int),
            forall|key: Seq<char>|
                #![trigger local@.contains_key(key)]
                local@.contains_key(key) <==> start.contains_key(key) || stored_from(
                    all,
                    key,
                    entries@.len() as int,
                ),
            forall|key: Seq<char>|
                #![trigger start.contains_key(key)]
                start.contains_key(key) ==> local@[key] == start[key],
            forall|j: int|
                entries@.len() <= j < all.len() && !start.contains_key((#[trigger] all[j]).key@)
                    ==> local@[all[j].key@] == all[j].value,
        decreases entries@.len(),
    {
        let ghost position: int = entries@.len() - 1;
        let ghost before = local@;
        let entry = entries.pop().unwrap();
        assert(entry == all[position]);
        assert(entries@ =~= all.take(position));
        let Entry { key, value } = entry;
        let ghost id = key@;
        proof {
            assert(key_at(all, id, position));
            assert forall|k: Seq<char>|
                stored_from(all, k, position) <==> key_at(all, k, position) || stored_from(
                    all,
                    k,
                    position + 1,
                ) by {
                lemma_stored_from_step(all, k, position);
            }
        }
        if !local.contains_key(&key) {
            local.insert(key, value);
            proof {
                assert(local@ == before.insert(id, value));
                assert(!start.contains_key(id));
                assert forall|j: int|
                    entries@.len() <= j < all.len() && !start.contains_key(
                        (#[trigger] all[j]).key@,
                    ) implies local@[all[j].key@] == all[j].value by {
                    if j != position {
                        assert(all[j].key@ != id);
                    }
                }
            }
        } else {
            proof {
                assert forall|j: int|
                    entries@.len() <= j < all.len() && !start.contains_key(
                        (#[trigger] all[j]).key@,
                    ) implies local@[all[j].key@] == all[j].value by {
                    if j == position {
                        // The identifier is held already and is not one of `start`, so a
                        // later entry holds it too; that contradicts distinctness.
                        assert(stored_from(all, id, position + 1));
                        let other = choose|other: int|
                            position + 1 <= other && key_at(all, id, other);
                        assert(other != j && all[other].key@ == all[j].key@);
                    }
                }
            }
        }
    }
    proof {
        assert forall|key: Seq<char>|
            local@.contains_key(key) <==> offered.union_prefer_right(start).contains_key(
                key,
            ) by {
            if offered.contains_key(key) {
                let j = choose|j: int| key_at(all, key, j);
                assert(0 <= j && key_at(all, key, j));
            }
            if stored_from(all, key, 0) {
                let j = choose|j: int| 0 <= j && key_at(all, key, j);
                assert(key_at(all, key, j));
            }
        }
        assert forall|key: Seq<char>| local@.contains_key(key) implies local@[key]
            == offered.union_prefer_right(start)[key] by {
            if !start.contains_key(key) {
                let j = choose|j: int| 0 <= j && key_at(all, key, j);
                lemma_entry_in_map(all, j);
            }
        }
        assert(local@ =~= offered.union_prefer_right(start));
    }
}

/// What [`merge_game_configs`] leaves of the local game's categories.
pub open spec fn categories_merged(
    before: Option<Vec<Category>>,
    remote: Option<Vec<Category>>,
    after: Option<Vec<Category>>,
) -> bool {
    match remote {
        None => after == before,
        Some(offered) => match before {
            None => after == remote,
            Some(held) => after is Some && category_models(after->Some_0@) == merged_categories(
                category_models(held@),
                category_models(offered@),
            ),
        },
    }
}

/// What [`merge_game_configs`] leaves of the local game's weapons.
pub open spec fn weapons_merged(
    before: Option<IdTable<Weapon>>,
    remote: Option<IdTable<Weapon>>,
    after: Option<IdTable<Weapon>>,
) -> bool {
    match remote {
        None => after == before,
        Some(offered) => match before {
            None => after == remote,
            Some(held) => after is Some && after->Some_0@ == offered@.union_prefer_right(held@),
        },
    }
}

/// Merges what the server offers for a game into the locally stored game.
///
/// Nothing local is overwritten. A remote category that the local game lacks
/// is added; of a category that both have, the loadouts that the local one
/// lacks are added; a remote weapon is added where the local game has none
/// of that identifier. Where the local game has no categories or no weapons
/// at all, it takes the remote ones. The game's name, key and verdict stay.
pub fn merge_game_configs(local_game: &mut Game, remote_game: Game)
    ensures
        final(local_game).name == old(local_game).name,
        final(local_game).key == old(local_game).key,
        final(local_game).key_status == old(local_game).key_status,
        categories_merged(
            old(local_game).categories,
            remote_game.categories,
            final(local_game).categories,
        ),
        weapons_merged(old(local_game).weapons, remote_game.weapons, final(local_game).weapons),
{
    let Game { name: _, key: _, key_status: _, categories, weapons } = remote_game;
    match categories {
        None => {},
        Some(offered) => {
            if local_game.categories.is_none() {
                local_game.categories = Some(offered);
            } else {
                match &mut local_game.categories {
                    Some(held) => {
                        merge_categories(held, offered);
                    },
                    None => {},
                }
            }
        },
    }
    match weapons {
        None => {},
        Some(offered) => {
            if local_game.weapons.is_none() {
                local_game.weapons = Some(offered);
            } else {
                match &mut local_game.weapons {
                    Some(held) => {
                        merge_weapons(held, offered);
                    },
                    None => {},
                }
            }
        },
    }
}

/// Turns a verdict into the key it names and the verdict as it is stored.
fn take_refusal(response: KeyStatusResponse) -> (pair: (String, KeyStatus))
    ensures
        pair == refusal(response),
{
    match response {
        KeyStatusResponse::Invalid { key } => {
            let stored = key.clone();
            (key, KeyStatus::Invalid { key: stored })
        },
        KeyStatusResponse::Expired { key, timestamp } => {
            let stored = key.clone();
            (key, KeyStatus::Expired { key: stored, timestamp })
        },
        KeyStatusResponse::Banned { key } => {
            let stored = key.clone();
            (key, KeyStatus::Banned { key: stored })
        },
        KeyStatusResponse::HWIDMismatch { key } => {
            let stored = key.clone();
            (key, KeyStatus::HWIDMismatch { key: stored })
        },
        KeyStatusResponse::Valid { key, timestamp, .. } => {
            let stored = key.clone();
            (key, KeyStatus::Valid { key: stored, timestamp })
        },
    }
}

/// What is known of a game's key when the catalog is built.
#[derive(Clone, Debug)]
pub enum KeyCheck {
    /// No key is stored for the game.
    NoKey,
    /// A key is stored and the server has given its verdict on it.
    Checked { key: String, response: KeyStatusResponse },
}

/// The catalog entry of a game that the server lists.
///
/// `local` is the locally stored game of that name, if there is one; it is
/// taken out where the entry uses it up or the key was refused.
///
/// - Without a key the game is listed by name only and `local` stays.
/// - With a valid key and a local game, the local game takes in what the
///   server offers (see [`merge_game_configs`]) and carries the key.
/// - With a valid key and no local game, the entry is the game that the
///   server sent, carrying the key.
/// - With a refused key the game is listed by name, with the key that the
///   verdict names and the verdict, and without catalog data.
pub fn listed_game(game_id: String, check: KeyCheck, local: &mut Option<Game>) -> (game: Game)
    ensures
        match check {
            KeyCheck::NoKey => {
                &&& *final(local) == *old(local)
                &&& game.name == game_id
                &&& game.key is None
                &&& game.key_status is None
                &&& game.categories is None
                &&& game.weapons is None
            },
            KeyCheck::Checked { key, response } => {
                &&& *final(local) is None
                &&& match response {
                    KeyStatusResponse::Valid { timestamp, config, .. } => {
                        &&& game.key == Some(key)
                        &&& game.key_status == Some(KeyStatus::Valid { key, timestamp })
                        &&& match *old(local) {
                            Some(stored) => {
                                &&& game.name == stored.name
                                &&& categories_merged(
                                    stored.categories,
                                    config.categories,
                                    game.categories,
                                )
                                &&& weapons_merged(stored.weapons, config.weapons, game.weapons)
                            },
                            None => {
                                &&& game.name == config.name
                                &&& game.categories == config.categories
                                &&& game.weapons == config.weapons
                            },
                        }
                    },
                    _ => {
                        &&& game.name == game_id
                        &&& game.key == Some(refusal(response).0)
                        &&& game.key_status == Some(refusal(response).1)
                        &&& game.categories is None
                        &&& game.weapons is None
                    },
                }
            },
        },
{
    match check {
        KeyCheck::NoKey => basic_game(game_id),
        KeyCheck::Checked { key, response } => {
            let stored = local.take();
            match response {
                KeyStatusResponse::Valid { key: _, timestamp, config } => {
                    let mut game = match stored {
                        Some(stored) => {
                            let mut game = stored;
                            merge_game_configs(&mut game, config);
                            game
                        },
                        None => config,
                    };
                    game.key = Some(key.clone());
                    game.key_status = Some(KeyStatus::Valid { key, timestamp });
                    game
                },
                other => {
                    let (named, status) = take_refusal(other);
                    refused_game(game_id, named, status)
                },
            }
        },
    }
}

/// Takes note of the server's verdict on a key that was just entered for `game`.
///
/// The game carries `key` from now on. A valid key makes the game take in
/// what the server offers (see [`merge_game_configs`]); its stored verdict
/// names the key that came with the offer, or no key where none came. Any
/// other verdict is stored as it is and the game loses its catalog data.
pub fn apply_key_response(game: &mut Game, key: String, response: KeyStatusResponse)
    ensures
        final(game).name == old(game).name,
        final(game).key == Some(key),
        match response {
            KeyStatusResponse::Valid { timestamp, config, .. } => {
                &&& final(game).key_status matches Some(KeyStatus::Valid { key: named, timestamp: at })
                &&& at == timestamp
                &&& named@ == match config.key {
                    Some(offered) => offered@,
                    None => Seq::<char>::empty(),
                }
                &&& categories_merged(
                    old(game).categories,
                    config.categories,
                    final(game).categories,
                )
                &&& weapons_merged(old(game).weapons, config.weapons, final(game).weapons)
            },
            _ => {
                &&& final(game).key_status == Some(refusal(response).1)
                &&& final(game).categories is None
                &&& final(game).weapons is None
            },
        },
{
    game.key = Some(key);
    match response {
        KeyStatusResponse::Valid { key: _, timestamp, config } => {
            let named: String = match &config.key {
                Some(offered) => offered.clone(),
                None => String::new(),
            };
            game.key_status = Some(KeyStatus::Valid { key: named, timestamp });
            merge_game_configs(game, config);
        },
        other => {
            let (_, status) = take_refusal(other);
            game.key_status = Some(status);
            game.categories = None;
            game.weapons = None;
        },
    }
}

} // verus!
