//! Turning raw collisions into typed contact events.
//!
//! The physics engine reports pairs of entities in no particular order. The
//! resolver looks at both orders of each pair and emits, for every pattern
//! that matches, an event whose fields say which entity is which.

use crate::asteroid::LaserAsteroidContactEvent;
use crate::guardian::AsteroidGuardianContactEvent;
use crate::player_ship::ShipAsteroidContactEvent;
use bevy::ecs::entity::Entity;
use vstd::prelude::*;

verus! {

/// `bevy::ecs::entity::Entity`, the handle of a body, carried as an opaque
/// value: the rules never look inside one.
#[verifier::external_type_specification]
#[verifier::external_body]
pub struct ExEntity(Entity);

/// Names the resolver's step of a frame, so that the damage handlers can be
/// ordered after it.
#[derive(Debug, Clone, Copy, PartialEq, Eq, Structural, Hash)]
pub struct ContactLabel;

/// Which kinds of body an entity is. An entity may be of several kinds, or of
/// none.
#[derive(Clone, Copy, Debug, PartialEq, Eq, Structural)]
pub struct Kinds {
    pub ship: bool,
    pub asteroid: bool,
    pub laser: bool,
    pub guardian: bool,
}

/// Two entities that collide, in the order the engine names them, each with
/// its kinds.
pub struct Pair {
    pub first: Entity,
    pub second: Entity,
    pub first_kinds: Kinds,
    pub second_kinds: Kinds,
}

/// A collision as the engine reports it.
pub enum Collision {
    Started(Pair),
    Stopped(Pair),
}

/// The typed contact events of a frame, each queue in the order found.
pub struct Contacts {
    pub ship_asteroid: Vec<ShipAsteroidContactEvent>,
    pub laser_asteroid: Vec<LaserAsteroidContactEvent>,
    pub asteroid_guardian: Vec<AsteroidGuardianContactEvent>,
}

/// One event if `yes`, none otherwise.
pub open spec fn when<E>(yes: bool, event: E) -> Seq<E> {
    if yes {
        seq![event]
    } else {
        Seq::empty()
    }
}

/// The ship-asteroid contacts of one collision: the pair as named, then the
/// pair the other way round.
pub open spec fn ship_asteroid_of(c: Collision) -> Seq<ShipAsteroidContactEvent> {
    match c {
        Collision::Started(p) => when(
            p.first_kinds.ship && p.second_kinds.asteroid,
            ShipAsteroidContactEvent { ship: p.first, asteroid: p.second },
        ) + when(
            p.second_kinds.ship && p.first_kinds.asteroid,
            ShipAsteroidContactEvent { ship: p.second, asteroid: p.first },
        ),
        Collision::Stopped(_) => Seq::empty(),
    }
}

/// The laser-asteroid contacts of one collision: asteroid first, then laser
/// first.
pub open spec fn laser_asteroid_of(c: Collision) -> Seq<LaserAsteroidContactEvent> {
    match c {
        Collision::Started(p) => when(
            p.first_kinds.asteroid && p.second_kinds.laser,
            LaserAsteroidContactEvent { laser: p.second, asteroid: p.first },
        ) + when(
            p.second_kinds.asteroid && p.first_kinds.laser,
            LaserAsteroidContactEvent { laser: p.first, asteroid: p.second },
        ),
        Collision::Stopped(_) => Seq::empty(),
    }
}

/// The asteroid-guardian contacts of one collision: guardian first, then
/// asteroid first.
pub open spec fn asteroid_guardian_of(c: Collision) -> Seq<AsteroidGuardianContactEvent> {
    match c {
        Collision::Started(p) => when(
            p.first_kinds.guardian && p.second_kinds.asteroid,
            AsteroidGuardianContactEvent { asteroid: p.second, guardian: p.first },
        ) + when(
            p.second_kinds.guardian && p.first_kinds.asteroid,
            AsteroidGuardianContactEvent { asteroid: p.first, guardian: p.second },
        ),
        Collision::Stopped(_) => Seq::empty(),
    }
}

/// The ship-asteroid contacts of a run of collisions, in order.
pub open spec fn ship_asteroid_contacts(cs: Seq<Collision>) -> Seq<ShipAsteroidContactEvent>
    decreases cs.len(),
{
    if cs.len() == 0 {
        Seq::empty()
    } else {
        ship_asteroid_contacts(cs.drop_last()) + ship_asteroid_of(cs.last())
    }
}

/// The laser-asteroid contacts of a run of collisions, in order.
pub open spec fn laser_asteroid_contacts(cs: Seq<Collision>) -> Seq<LaserAsteroidContactEvent>
    decreases cs.len(),
{
    if cs.len() == 0 {
        Seq::empty()
    } else {
        laser_asteroid_contacts(cs.drop_last()) + laser_asteroid_of(cs.last())
    }
}

/// The asteroid-guardian contacts of a run of collisions, in order.
pub open spec fn asteroid_guardian_contacts(cs: Seq<Collision>) -> Seq<
    AsteroidGuardianContactEvent,
>
    decreases cs.len(),
{
    if cs.len() == 0 {
        Seq::empty()
    } else {
        asteroid_guardian_contacts(cs.drop_last()) + asteroid_guardian_of(cs.last())
    }
}

/// The two patterns of one kind never mix the entities up: in every
/// ship-asteroid contact of a collision that started, the ship field names an
/// entity of the pair that is a ship, and the asteroid field names the other
/// one, which is an asteroid.
pub proof fn lemma_ship_asteroid_fields(p: Pair, i: int)
    requires
        0 <= i < ship_asteroid_of(Collision::Started(p)).len(),
    ensures
        ({
            let event = ship_asteroid_of(Collision::Started(p))[i];
            ||| event.ship == p.first && event.asteroid == p.second && p.first_kinds.ship
                && p.second_kinds.asteroid
            ||| event.ship == p.second && event.asteroid == p.first && p.second_kinds.ship
                && p.first_kinds.asteroid
        }),
{
}

/// A collision whose pair matches none of the three patterns, in either
/// order, emits no contact at all.
pub proof fn lemma_no_pattern_no_contact(p: Pair)
    requires
        !(p.first_kinds.ship && p.second_kinds.asteroid),
        !(p.second_kinds.ship && p.first_kinds.asteroid),
        !(p.first_kinds.asteroid && p.second_kinds.laser),
        !(p.second_kinds.asteroid && p.first_kinds.laser),
        !(p.first_kinds.guardian && p.second_kinds.asteroid),
        !(p.second_kinds.guardian && p.first_kinds.asteroid),
    ensures
        ship_asteroid_of(Collision::Started(p)).len() == 0,
        laser_asteroid_of(Collision::Started(p)).len() == 0,
        asteroid_guardian_of(Collision::Started(p)).len() == 0,
{
}

/// Resolves the collisions of a frame into typed contact events. Only
/// collisions that started count. Each is tested both ways round against the
/// three patterns ship and asteroid, asteroid and laser, guardian and
/// asteroid; every match emits one event, and a pair that matches no pattern
/// emits none.
pub fn contact_system(collisions: &Vec<Collision>) -> (contacts: Contacts)
    ensures
        contacts.ship_asteroid@ == ship_asteroid_contacts(collisions@),
        contacts.laser_asteroid@ == laser_asteroid_contacts(collisions@),
        contacts.asteroid_guardian@ == asteroid_guardian_contacts(collisions@),
{
    let mut ship_asteroid: Vec<ShipAsteroidContactEvent> = Vec::new();
    let mut laser_asteroid: Vec<LaserAsteroidContactEvent> = Vec::new();
    let mut asteroid_guardian: Vec<AsteroidGuardianContactEvent> = Vec::new();
    let mut i: usize = 0;
    while i < collisions.len()
        invariant
            i <= collisions@.len(),
            ship_asteroid@ == ship_asteroid_contacts(collisions@.take(i as int)),
            laser_asteroid@ == laser_asteroid_contacts(collisions@.take(i as int)),
            asteroid_guardian@ == asteroid_guardian_contacts(collisions@.take(i as int)),
        decreases collisions@.len() - i,
    {
        proof {
            let next = collisions@.take(i + 1);
            assert(next.drop_last() == collisions@.take(i as int));
            assert(next.last() == collisions@[i as int]);
        }
        let ghost sa = ship_asteroid@;
        let ghost la = laser_asteroid@;
        let ghost ag = asteroid_guardian@;
        if let Collision::Started(p) = &collisions[i] {
            let e1 = p.first;
            let e2 = p.second;
            if p.first_kinds.ship && p.second_kinds.asteroid {
                ship_asteroid.push(ShipAsteroidContactEvent { ship: e1, asteroid: e2 });
            }
            if p.second_kinds.ship && p.first_kinds.asteroid {
                ship_asteroid.push(ShipAsteroidContactEvent { ship: e2, asteroid: e1 });
            }
            if p.first_kinds.asteroid && p.second_kinds.laser {
                laser_asteroid.push(LaserAsteroidContactEvent { laser: e2, asteroid: e1 });
            }
            if p.second_kinds.asteroid && p.first_kinds.laser {
                laser_asteroid.push(LaserAsteroidContactEvent { laser: e1, asteroid: e2 });
            }
            if p.first_kinds.guardian && p.second_kinds.asteroid {
                asteroid_guardian.push(AsteroidGuardianContactEvent { asteroid: e2, guardian: e1 });
            }
            if p.second_kinds.guardian && p.first_kinds.asteroid {
                asteroid_guardian.push(AsteroidGuardianContactEvent { asteroid: e1, guardian: e2 });
            }
        }
        proof {
            assert(ship_asteroid@ =~= sa + ship_asteroid_of(collisions@[i as int]));
            assert(laser_asteroid@ =~= la + laser_asteroid_of(collisions@[i as int]));
            assert(asteroid_guardian@ =~= ag + asteroid_guardian_of(collisions@[i as int]));
        }
        i = i + 1;
    }
    proof {
        assert(collisions@.take(collisions@.len() as int) == collisions@);
    }
    Contacts { ship_asteroid, laser_asteroid, asteroid_guardian }
}

} // verus!
