//! The location graph builder: turns the current warp-pad links, unlock
//! table, boss gates and hub gates into a list mapping each item location to
//! the ordered conjunction of requirements that must hold to reach it.

use vstd::prelude::*;

use crate::data::{
    GenerationError, ItemLocation, LevelID, RaceType, RequiredItem, UnlockRequirement,
    UnlockRequirementItem, UnlockStage,
};
use crate::world::{BossCharacter, Hubs};

verus! {

/// First match of slot-and-stage in the unlock table.
pub open spec fn lookup_unlock(
    unlocks: Seq<((LevelID, UnlockStage), Option<UnlockRequirementItem>)>,
    level: LevelID,
    stage: UnlockStage,
) -> Option<Option<UnlockRequirementItem>>
    decreases unlocks.len(),
{
    if unlocks.len() == 0 {
        None
    } else if unlocks[0].0 == (level, stage) {
        Some(unlocks[0].1)
    } else {
        lookup_unlock(unlocks.drop_first(), level, stage)
    }
}

/// First match of a hub in the hub-requirement list.
pub open spec fn lookup_hub(
    hubs: Seq<(Hubs, Option<UnlockRequirementItem>)>,
    hub: Hubs,
) -> Option<Option<UnlockRequirementItem>>
    decreases hubs.len(),
{
    if hubs.len() == 0 {
        None
    } else if hubs[0].0 == hub {
        Some(hubs[0].1)
    } else {
        lookup_hub(hubs.drop_first(), hub)
    }
}

/// First match of a boss in the garage-requirement list.
pub open spec fn lookup_garage(
    garages: Seq<(BossCharacter, UnlockRequirement)>,
    boss: BossCharacter,
) -> Option<UnlockRequirement>
    decreases garages.len(),
{
    if garages.len() == 0 {
        None
    } else if garages[0].0 == boss {
        Some(garages[0].1)
    } else {
        lookup_garage(garages.drop_first(), boss)
    }
}

/// First match of an original slot in the link list.
pub open spec fn lookup_link(links: Seq<(LevelID, LevelID)>, key: LevelID) -> Option<LevelID>
    decreases links.len(),
{
    if links.len() == 0 {
        None
    } else if links[0].0 == key {
        Some(links[0].1)
    } else {
        lookup_link(links.drop_first(), key)
    }
}

/// Executable form of [`lookup_unlock`].
pub fn find_unlock(
    unlocks: &Vec<((LevelID, UnlockStage), Option<UnlockRequirementItem>)>,
    level: LevelID,
    stage: UnlockStage,
) -> (r: Option<Option<UnlockRequirementItem>>)
    ensures
        r == lookup_unlock(unlocks@, level, stage),
{
    proof {
        assert(unlocks@.skip(0) =~= unlocks@);
    }
    let mut i: usize = 0;
    while i < unlocks.len()
        invariant
            0 <= i <= unlocks@.len(),
            lookup_unlock(unlocks@, level, stage) == lookup_unlock(
                unlocks@.skip(i as int),
                level,
                stage,
            ),
        decreases unlocks@.len() - i,
    {
        proof {
            assert(unlocks@.skip(i as int).drop_first() =~= unlocks@.skip(i + 1));
            assert(unlocks@.skip(i as int)[0] == unlocks@[i as int]);
        }
        let ((l, st), req) = unlocks[i];
        if l == level && st == stage {
            return Some(req);
        }
        i = i + 1;
    }
    proof {
        assert(unlocks@.skip(unlocks@.len() as int) =~= Seq::<
            ((LevelID, UnlockStage), Option<UnlockRequirementItem>),
        >::empty());
    }
    None
}

/// Executable form of [`lookup_hub`].
pub fn find_hub(hubs: &Vec<(Hubs, Option<UnlockRequirementItem>)>, hub: Hubs) -> (r: Option<
    Option<UnlockRequirementItem>,
>)
    ensures
        r == lookup_hub(hubs@, hub),
{
    proof {
        assert(hubs@.skip(0) =~= hubs@);
    }
    let mut i: usize = 0;
    while i < hubs.len()
        invariant
            0 <= i <= hubs@.len(),
            lookup_hub(hubs@, hub) == lookup_hub(hubs@.skip(i as int), hub),
        decreases hubs@.len() - i,
    {
        proof {
            assert(hubs@.skip(i as int).drop_first() =~= hubs@.skip(i + 1));
            assert(hubs@.skip(i as int)[0] == hubs@[i as int]);
        }
        let (h, req) = hubs[i];
        if h == hub {
            return Some(req);
        }
        i = i + 1;
    }
    proof {
        assert(hubs@.skip(hubs@.len() as int) =~= Seq::<
            (Hubs, Option<UnlockRequirementItem>),
        >::empty());
    }
    None
}

/// Executable form of [`lookup_garage`].
pub fn find_garage(garages: &Vec<(BossCharacter, UnlockRequirement)>, boss: BossCharacter) -> (r:
    Option<UnlockRequirement>)
    ensures
        r == lookup_garage(garages@, boss),
{
    proof {
        assert(garages@.skip(0) =~= garages@);
    }
    let mut i: usize = 0;
    while i < garages.len()
        invariant
            0 <= i <= garages@.len(),
            lookup_garage(garages@, boss) == lookup_garage(garages@.skip(i as int), boss),
        decreases garages@.len() - i,
    {
        proof {
            assert(garages@.skip(i as int).drop_first() =~= garages@.skip(i + 1));
            assert(garages@.skip(i as int)[0] == garages@[i as int]);
        }
        let (b, req) = garages[i];
        if b == boss {
            return Some(req);
        }
        i = i + 1;
    }
    proof {
        assert(garages@.skip(garages@.len() as int) =~= Seq::<
            (BossCharacter, UnlockRequirement),
        >::empty());
    }
    None
}

/// Executable form of [`lookup_link`].
pub fn find_link(links: &Vec<(LevelID, LevelID)>, key: LevelID) -> (r: Option<LevelID>)
    ensures
        r == lookup_link(links@, key),
{
    proof {
        assert(links@.skip(0) =~= links@);
    }
    let mut i: usize = 0;
    while i < links.len()
        invariant
            0 <= i <= links@.len(),
            lookup_link(links@, key) == lookup_link(links@.skip(i as int), key),
        decreases links@.len() - i,
    {
        proof {
            assert(links@.skip(i as int).drop_first() =~= links@.skip(i + 1));
            assert(links@.skip(i as int)[0] == links@[i as int]);
        }
        let (k, v) = links[i];
        if k == key {
            return Some(v);
        }
        i = i + 1;
    }
    proof {
        assert(links@.skip(links@.len() as int) =~= Seq::<(LevelID, LevelID)>::empty());
    }
    None
}

/// A fresh vector holding the same requirements.
pub fn copy_reqs(v: &Vec<UnlockRequirement>) -> (r: Vec<UnlockRequirement>)
    ensures
        r@ == v@,
{
    let mut r: Vec<UnlockRequirement> = Vec::new();
    let mut i: usize = 0;
    while i < v.len()
        invariant
            0 <= i <= v@.len(),
            r@ == v@.take(i as int),
        decreases v@.len() - i,
    {
        r.push(v[i]);
        proof {
            assert(r@ =~= v@.take(i + 1));
        }
        i = i + 1;
    }
    proof {
        assert(v@.take(v@.len() as int) =~= v@);
    }
    r
}

/// The hub owning a vanilla slot: each generic hub holds its four trophy
/// slots and its arena; the two relic-only slots share the second hub's
/// gate, and the five cup slots belong to the fifth hub.
pub open spec fn hub_of_slot(slot: LevelID) -> Hubs {
    if slot == LevelID::CrashCove || slot == LevelID::RoosTubes || slot == LevelID::MysteryCaves
        || slot == LevelID::SewerSpeedway || slot == LevelID::SkullRock {
        Hubs::NSanityBeach
    } else if slot == LevelID::TigerTemple || slot == LevelID::CocoPark || slot
        == LevelID::PapusPyramid || slot == LevelID::DingoCanyon || slot == LevelID::RampageRuins
        || slot == LevelID::TurboTrack || slot == LevelID::SlideColiseum {
        Hubs::TheLostRuins
    } else if slot.spec_is_cup() {
        Hubs::GemStoneValley
    } else if slot == LevelID::BlizzardBluff || slot == LevelID::DragonMines || slot
        == LevelID::PolarPass || slot == LevelID::TinyArena || slot == LevelID::RockyRoad {
        Hubs::GlacierPark
    } else {
        Hubs::CitadelCity
    }
}

/// Executable form of [`hub_of_slot`].
pub fn hub_of_slot_exec(slot: LevelID) -> (r: Hubs)
    ensures
        r == hub_of_slot(slot),
{
    match slot {
        LevelID::CrashCove | LevelID::RoosTubes | LevelID::MysteryCaves | LevelID::SewerSpeedway
            | LevelID::SkullRock => Hubs::NSanityBeach,
        LevelID::TigerTemple | LevelID::CocoPark | LevelID::PapusPyramid | LevelID::DingoCanyon
            | LevelID::RampageRuins | LevelID::TurboTrack | LevelID::SlideColiseum => Hubs::TheLostRuins,
        LevelID::CupRed | LevelID::CupGreen | LevelID::CupBlue | LevelID::CupYellow
            | LevelID::CupPurple => Hubs::GemStoneValley,
        LevelID::BlizzardBluff | LevelID::DragonMines | LevelID::PolarPass | LevelID::TinyArena
            | LevelID::RockyRoad => Hubs::GlacierPark,
        _ => Hubs::CitadelCity,
    }
}

/// The structural "2 keys" extra every gem cup asks on top of its hub gate.
pub open spec fn cup_key_requirement() -> UnlockRequirement {
    UnlockRequirement::Item(UnlockRequirementItem { item_type: RequiredItem::Key, count: 2 })
}

/// The prefix requirement list of a pad sitting in slot `slot`: its hub's
/// gate where the hub has one, plus the structural "2 keys" extra when the
/// slot belongs to the gem-cup row.
pub open spec fn spec_hub_prefix(
    hubs: Seq<(Hubs, Option<UnlockRequirementItem>)>,
    slot: LevelID,
) -> Seq<UnlockRequirement> {
    let base = match lookup_hub(hubs, hub_of_slot(slot)) {
        Some(Some(item)) => seq![UnlockRequirement::Item(item)],
        _ => Seq::empty(),
    };
    if slot.spec_is_cup() {
        base.push(cup_key_requirement())
    } else {
        base
    }
}

/// Builds the prefix requirement list; see [`spec_hub_prefix`].
pub fn build_prefix(hubs: &Vec<(Hubs, Option<UnlockRequirementItem>)>, slot: LevelID) -> (r: Vec<
    UnlockRequirement,
>)
    requires
        lookup_hub(hubs@, hub_of_slot(slot)).is_some(),
    ensures
        r@ == spec_hub_prefix(hubs@, slot),
{
    let mut r: Vec<UnlockRequirement> = Vec::new();
    let hub = hub_of_slot_exec(slot);
    match find_hub(hubs, hub) {
        Some(Some(item)) => {
            r.push(UnlockRequirement::Item(item));
        },
        _ => {},
    }
    if slot.is_cup() {
        r.push(
            UnlockRequirement::Item(UnlockRequirementItem { item_type: RequiredItem::Key, count: 2 }),
        );
    }
    proof {
        assert(r@ =~= spec_hub_prefix(hubs@, slot));
    }
    r
}

/// The stage-one requirement item of a track, defaulting to an open gate
/// where the table has none; the callers only use it where the table is
/// known to hold one.
pub open spec fn unlock_item_or_open(
    unlocks: Seq<((LevelID, UnlockStage), Option<UnlockRequirementItem>)>,
    level: LevelID,
    stage: UnlockStage,
) -> UnlockRequirementItem {
    match lookup_unlock(unlocks, level, stage) {
        Some(Some(item)) => item,
        _ => UnlockRequirementItem { item_type: RequiredItem::Trophy, count: 0 },
    }
}

/// The unlock table carries a usable entry for the track `level`: a present
/// stage-one requirement, and a present stage-two requirement where the
/// track has the trophy-pad shape.
pub open spec fn unlock_ok(
    unlocks: Seq<((LevelID, UnlockStage), Option<UnlockRequirementItem>)>,
    level: LevelID,
) -> bool {
    &&& (lookup_unlock(unlocks, level, UnlockStage::One) matches Some(Some(_)))
    &&& (level.spec_is_trophy_pad() ==> (lookup_unlock(unlocks, level, UnlockStage::Two) matches Some(
        Some(_),
    )))
}

/// All inputs the graph builder dereferences are present: every hub and
/// every boss has its gate listed, and every linked track has its unlock
/// entries.
pub open spec fn graph_inputs_ok(
    links: Seq<(LevelID, LevelID)>,
    unlocks: Seq<((LevelID, UnlockStage), Option<UnlockRequirementItem>)>,
    garages: Seq<(BossCharacter, UnlockRequirement)>,
    hubs: Seq<(Hubs, Option<UnlockRequirementItem>)>,
) -> bool {
    &&& (forall|h: Hubs| (#[trigger] lookup_hub(hubs, h)).is_some())
    &&& (forall|b: BossCharacter| (#[trigger] lookup_garage(garages, b)).is_some())
    &&& (forall|i: int| 0 <= i < links.len() ==> unlock_ok(unlocks, (#[trigger] links[i]).1))
}

/// The graph entries one link contributes, keyed by the track its pad
/// currently leads to and shaped by that track's kind.
pub open spec fn link_entries(
    original: LevelID,
    current: LevelID,
    unlocks: Seq<((LevelID, UnlockStage), Option<UnlockRequirementItem>)>,
    hubs: Seq<(Hubs, Option<UnlockRequirementItem>)>,
) -> Seq<(ItemLocation, Seq<UnlockRequirement>)> {
    let prefix = spec_hub_prefix(hubs, original);
    let u1 = UnlockRequirement::Item(unlock_item_or_open(unlocks, current, UnlockStage::One));
    if current.spec_is_trophy_pad() {
        let u2 = UnlockRequirement::Item(unlock_item_or_open(unlocks, current, UnlockStage::Two));
        let trophy_reqs = prefix.push(u1);
        let stage2_reqs = trophy_reqs.push(u2);
        seq![
            (ItemLocation { levelid: current, racetype: RaceType::TrophyRace }, trophy_reqs),
            (
                ItemLocation { levelid: current, racetype: RaceType::CtrOrCrystalChallenge },
                stage2_reqs,
            ),
            (
                ItemLocation { levelid: current, racetype: RaceType::RelicRaceSapphire },
                stage2_reqs,
            ),
            (ItemLocation { levelid: current, racetype: RaceType::RelicRaceGold }, stage2_reqs),
            (
                ItemLocation { levelid: current, racetype: RaceType::RelicRacePlatinum },
                stage2_reqs,
            ),
        ]
    } else if current.spec_is_arena() {
        seq![
            (
                ItemLocation { levelid: current, racetype: RaceType::CtrOrCrystalChallenge },
                prefix.push(u1),
            ),
        ]
    } else if current.spec_is_cup() {
        seq![
            (
                ItemLocation { levelid: current, racetype: RaceType::GemCup },
                prefix.push(cup_key_requirement()).push(u1),
            ),
        ]
    } else {
        let relic_reqs = seq![
            u1,
            UnlockRequirement::Item(UnlockRequirementItem { item_type: RequiredItem::Key, count: 1 }),
        ] + prefix;
        seq![
            (ItemLocation { levelid: current, racetype: RaceType::RelicRaceSapphire }, relic_reqs),
            (ItemLocation { levelid: current, racetype: RaceType::RelicRaceGold }, relic_reqs),
            (ItemLocation { levelid: current, racetype: RaceType::RelicRacePlatinum }, relic_reqs),
        ]
    }
}

/// The graph entries of a whole link list, in list order.
pub open spec fn entries_of_links(
    links: Seq<(LevelID, LevelID)>,
    unlocks: Seq<((LevelID, UnlockStage), Option<UnlockRequirementItem>)>,
    hubs: Seq<(Hubs, Option<UnlockRequirementItem>)>,
) -> Seq<(ItemLocation, Seq<UnlockRequirement>)>
    decreases links.len(),
{
    if links.len() == 0 {
        Seq::empty()
    } else {
        entries_of_links(links.drop_last(), unlocks, hubs) + link_entries(
            links.last().0,
            links.last().1,
            unlocks,
            hubs,
        )
    }
}

/// The single boss-race entry of one garage: its configured gate, plus the
/// owning hub's gate where the hub has one.
pub open spec fn garage_entry(
    garages: Seq<(BossCharacter, UnlockRequirement)>,
    hubs: Seq<(Hubs, Option<UnlockRequirementItem>)>,
    garage_level: LevelID,
    boss: BossCharacter,
    hub: Hubs,
) -> Seq<(ItemLocation, Seq<UnlockRequirement>)> {
    let greq = match lookup_garage(garages, boss) {
        Some(g) => g,
        None => UnlockRequirement::Item(
            UnlockRequirementItem { item_type: RequiredItem::Trophy, count: 0 },
        ),
    };
    let reqs = match lookup_hub(hubs, hub) {
        Some(Some(item)) => seq![greq, UnlockRequirement::Item(item)],
        _ => seq![greq],
    };
    seq![(ItemLocation { levelid: garage_level, racetype: RaceType::BossRace }, reqs)]
}

/// The full location graph: the entries of every link, then the five boss
/// garages at their fixed boss-race slots.
pub open spec fn spec_location_list(
    links: Seq<(LevelID, LevelID)>,
    unlocks: Seq<((LevelID, UnlockStage), Option<UnlockRequirementItem>)>,
    garages: Seq<(BossCharacter, UnlockRequirement)>,
    hubs: Seq<(Hubs, Option<UnlockRequirementItem>)>,
) -> Seq<(ItemLocation, Seq<UnlockRequirement>)> {
    entries_of_links(links, unlocks, hubs) + garage_entry(
        garages,
        hubs,
        LevelID::RoosTubes,
        BossCharacter::RipperRoo,
        Hubs::NSanityBeach,
    ) + garage_entry(
        garages,
        hubs,
        LevelID::PapusPyramid,
        BossCharacter::PapuPapu,
        Hubs::TheLostRuins,
    ) + garage_entry(
        garages,
        hubs,
        LevelID::DragonMines,
        BossCharacter::KomodoJoe,
        Hubs::GlacierPark,
    ) + garage_entry(
        garages,
        hubs,
        LevelID::HotAirSkyway,
        BossCharacter::Pinstripe,
        Hubs::CitadelCity,
    ) + garage_entry(
        garages,
        hubs,
        LevelID::OxideStation,
        BossCharacter::NOxide,
        Hubs::GemStoneValley,
    )
}

/// The mathematical view of a built graph: each entry's requirement vector
/// as a sequence.
pub open spec fn view_entries(s: Seq<(ItemLocation, Vec<UnlockRequirement>)>) -> Seq<
    (ItemLocation, Seq<UnlockRequirement>),
> {
    s.map_values(|e: (ItemLocation, Vec<UnlockRequirement>)| (e.0, e.1@))
}

/// Builds the location graph of the given world state: for each warp pad,
/// the hub gate of its vanilla slot prefixes the unlock requirements of the
/// track it currently leads to, shaped by that track's kind; the five boss
/// garages are added at their fixed slots. A world whose tables are missing
/// an entry the graph needs is malformed and rejected.
pub fn get_location_list(
    warppad_links: &Vec<(LevelID, LevelID)>,
    warppad_unlocks: &Vec<((LevelID, UnlockStage), Option<UnlockRequirementItem>)>,
    bossgarage_requirements: &Vec<(BossCharacter, UnlockRequirement)>,
    hub_requirements: &Vec<(Hubs, Option<UnlockRequirementItem>)>,
) -> (r: Result<Vec<(ItemLocation, Vec<UnlockRequirement>)>, GenerationError>)
    ensures
        r.is_ok() <==> graph_inputs_ok(
            warppad_links@,
            warppad_unlocks@,
            bossgarage_requirements@,
            hub_requirements@,
        ),
        (r is Err ==> r == Err::<
            Vec<(ItemLocation, Vec<UnlockRequirement>)>,
            GenerationError,
        >(GenerationError::MalformedWorld)),
        (r matches Ok(v) ==> view_entries(v@) == spec_location_list(
            warppad_links@,
            warppad_unlocks@,
            bossgarage_requirements@,
            hub_requirements@,
        )),
{
    // Check every hub and garage gate is listed before building anything.
    if find_hub(hub_requirements, Hubs::NSanityBeach).is_none() || find_hub(
        hub_requirements,
        Hubs::TheLostRuins,
    ).is_none() || find_hub(hub_requirements, Hubs::GlacierPark).is_none() || find_hub(
        hub_requirements,
        Hubs::CitadelCity,
    ).is_none() || find_hub(hub_requirements, Hubs::GemStoneValley).is_none() {
        return Err(GenerationError::MalformedWorld);
    }
    if find_garage(bossgarage_requirements, BossCharacter::RipperRoo).is_none() || find_garage(
        bossgarage_requirements,
        BossCharacter::PapuPapu,
    ).is_none() || find_garage(bossgarage_requirements, BossCharacter::KomodoJoe).is_none()
        || find_garage(bossgarage_requirements, BossCharacter::Pinstripe).is_none() || find_garage(
        bossgarage_requirements,
        BossCharacter::NOxide,
    ).is_none() {
        return Err(GenerationError::MalformedWorld);
    }
    proof {
        assert forall|h: Hubs| (#[trigger] lookup_hub(hub_requirements@, h)).is_some() by {
            match h {
                Hubs::NSanityBeach => {},
                Hubs::TheLostRuins => {},
                Hubs::GlacierPark => {},
                Hubs::CitadelCity => {},
                Hubs::GemStoneValley => {},
            }
        }
        assert forall|b: BossCharacter|
            (#[trigger] lookup_garage(bossgarage_requirements@, b)).is_some() by {
            match b {
                BossCharacter::RipperRoo => {},
                BossCharacter::PapuPapu => {},
                BossCharacter::KomodoJoe => {},
                BossCharacter::Pinstripe => {},
                BossCharacter::NOxide => {},
            }
        }
    }

    let mut out: Vec<(ItemLocation, Vec<UnlockRequirement>)> = Vec::new();
    let mut i: usize = 0;
    while i < warppad_links.len()
        invariant
            0 <= i <= warppad_links@.len(),
            forall|h: Hubs| (#[trigger] lookup_hub(hub_requirements@, h)).is_some(),
            forall|b: BossCharacter|
                (#[trigger] lookup_garage(bossgarage_requirements@, b)).is_some(),
            forall|j: int|
                0 <= j < i ==> unlock_ok(warppad_unlocks@, (#[trigger] warppad_links@[j]).1),
            view_entries(out@) == entries_of_links(
                warppad_links@.take(i as int),
                warppad_unlocks@,
                hub_requirements@,
            ),
        decreases warppad_links@.len() - i,
    {
        let (original, current) = warppad_links[i];
        let prefix = build_prefix(hub_requirements, original);
        let u1_item = match find_unlock(warppad_unlocks, current, UnlockStage::One) {
            Some(Some(item)) => item,
            _ => {
                return Err(GenerationError::MalformedWorld);
            },
        };
        let u1 = UnlockRequirement::Item(u1_item);
        if current.is_trophy_pad() {
            let u2_item = match find_unlock(warppad_unlocks, current, UnlockStage::Two) {
                Some(Some(item)) => item,
                _ => {
                    return Err(GenerationError::MalformedWorld);
                },
            };
            let u2 = UnlockRequirement::Item(u2_item);
            let mut trophy_reqs = copy_reqs(&prefix);
            trophy_reqs.push(u1);
            out.push(
                (
                    ItemLocation { levelid: current, racetype: RaceType::TrophyRace },
                    copy_reqs(&trophy_reqs),
                ),
            );
            let mut stage2_reqs = trophy_reqs;
            stage2_reqs.push(u2);
            out.push(
                (
                    ItemLocation { levelid: current, racetype: RaceType::CtrOrCrystalChallenge },
                    copy_reqs(&stage2_reqs),
                ),
            );
            out.push(
                (
                    ItemLocation { levelid: current, racetype: RaceType::RelicRaceSapphire },
                    copy_reqs(&stage2_reqs),
                ),
            );
            out.push(
                (
                    ItemLocation { levelid: current, racetype: RaceType::RelicRaceGold },
                    copy_reqs(&stage2_reqs),
                ),
            );
            out.push(
                (
                    ItemLocation { levelid: current, racetype: RaceType::RelicRacePlatinum },
                    stage2_reqs,
                ),
            );
        } else if current.is_arena() {
            let mut reqs = copy_reqs(&prefix);
            reqs.push(u1);
            out.push(
                (ItemLocation { levelid: current, racetype: RaceType::CtrOrCrystalChallenge }, reqs),
            );
        } else if current.is_cup() {
            let mut reqs = copy_reqs(&prefix);
            reqs.push(
                UnlockRequirement::Item(
                    UnlockRequirementItem { item_type: RequiredItem::Key, count: 2 },
                ),
            );
            reqs.push(u1);
            out.push((ItemLocation { levelid: current, racetype: RaceType::GemCup }, reqs));
        } else {
            let mut reqs: Vec<UnlockRequirement> = Vec::new();
            reqs.push(u1);
            reqs.push(
                UnlockRequirement::Item(
                    UnlockRequirementItem { item_type: RequiredItem::Key, count: 1 },
                ),
            );
            let mut rest = copy_reqs(&prefix);
            reqs.append(&mut rest);
            out.push(
                (
                    ItemLocation { levelid: current, racetype: RaceType::RelicRaceSapphire },
                    copy_reqs(&reqs),
                ),
            );
            out.push(
                (
                    ItemLocation { levelid: current, racetype: RaceType::RelicRaceGold },
                    copy_reqs(&reqs),
                ),
            );
            out.push(
                (ItemLocation { levelid: current, racetype: RaceType::RelicRacePlatinum }, reqs),
            );
        }
        proof {
            assert(warppad_links@.take(i + 1).drop_last() =~= warppad_links@.take(i as int));
            assert(warppad_links@.take(i + 1).last() == warppad_links@[i as int]);
            assert(view_entries(out@) =~~= entries_of_links(
                warppad_links@.take(i + 1),
                warppad_unlocks@,
                hub_requirements@,
            ));
        }
        i = i + 1;
    }
    proof {
        assert(warppad_links@.take(warppad_links@.len() as int) =~= warppad_links@);
    }

    append_garage_entry(
        &mut out,
        bossgarage_requirements,
        hub_requirements,
        LevelID::RoosTubes,
        BossCharacter::RipperRoo,
        Hubs::NSanityBeach,
    );
    append_garage_entry(
        &mut out,
        bossgarage_requirements,
        hub_requirements,
        LevelID::PapusPyramid,
        BossCharacter::PapuPapu,
        Hubs::TheLostRuins,
    );
    append_garage_entry(
        &mut out,
        bossgarage_requirements,
        hub_requirements,
        LevelID::DragonMines,
        BossCharacter::KomodoJoe,
        Hubs::GlacierPark,
    );
    append_garage_entry(
        &mut out,
        bossgarage_requirements,
        hub_requirements,
        LevelID::HotAirSkyway,
        BossCharacter::Pinstripe,
        Hubs::CitadelCity,
    );
    append_garage_entry(
        &mut out,
        bossgarage_requirements,
        hub_requirements,
        LevelID::OxideStation,
        BossCharacter::NOxide,
        Hubs::GemStoneValley,
    );
    proof {
        assert(view_entries(out@) =~~= spec_location_list(
            warppad_links@,
            warppad_unlocks@,
            bossgarage_requirements@,
            hub_requirements@,
        ));
    }
    Ok(out)
}

/// Appends one garage's boss-race entry; see [`garage_entry`].
fn append_garage_entry(
    out: &mut Vec<(ItemLocation, Vec<UnlockRequirement>)>,
    garages: &Vec<(BossCharacter, UnlockRequirement)>,
    hubs: &Vec<(Hubs, Option<UnlockRequirementItem>)>,
    garage_level: LevelID,
    boss: BossCharacter,
    hub: Hubs,
)
    requires
        lookup_garage(garages@, boss).is_some(),
        lookup_hub(hubs@, hub).is_some(),
    ensures
        view_entries(final(out)@) == view_entries(old(out)@) + garage_entry(
            garages@,
            hubs@,
            garage_level,
            boss,
            hub,
        ),
{
    let greq = match find_garage(garages, boss) {
        Some(g) => g,
        None => UnlockRequirement::Item(
            UnlockRequirementItem { item_type: RequiredItem::Trophy, count: 0 },
        ),
    };
    let mut reqs: Vec<UnlockRequirement> = Vec::new();
    reqs.push(greq);
    match find_hub(hubs, hub) {
        Some(Some(item)) => {
            reqs.push(UnlockRequirement::Item(item));
        },
        _ => {},
    }
    out.push((ItemLocation { levelid: garage_level, racetype: RaceType::BossRace }, reqs));
    proof {
        assert(view_entries(out@) =~~= view_entries(old(out)@) + garage_entry(
            garages@,
            hubs@,
            garage_level,
            boss,
            hub,
        ));
    }
}

} // verus!
