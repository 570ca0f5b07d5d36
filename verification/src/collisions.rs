//! What happens when things touch: which enemy a projectile hits, whether a
//! kamikaze drone detonates on another enemy, and how the enemies touching
//! the player are resolved. Whether two bodies touch is decided by the
//! caller from their positions and radii.

use vstd::prelude::*;

verus! {

/// One enemy as seen from the player in the current frame.
#[derive(Debug, Clone, Copy, PartialEq, Eq, Structural)]
pub struct PlayerContact {
    /// The enemy is within collision distance of the player.
    pub touching: bool,
    /// The enemy blows up instead of ramming.
    pub explodes_on_contact: bool,
}

/// The result of resolving the enemies touching the player.
pub struct ContactOutcome {
    /// Indices of the touching enemies that start to detonate, in order.
    pub detonations: Vec<usize>,
    /// Whether a ramming enemy hurts the player in this frame.
    pub player_hit: bool,
}

/// A touching enemy that explodes starts to detonate.
pub open spec fn detonates(c: PlayerContact) -> bool {
    c.touching && c.explodes_on_contact
}

/// A touching enemy that rams hurts the player when the player is not
/// shielded by the contact cooldown.
pub open spec fn rams(c: PlayerContact, cooldown_ready: bool) -> bool {
    c.touching && !c.explodes_on_contact && cooldown_ready
}

/// The enemies are examined in order; explosive ones start to detonate, and
/// the first ramming hit ends the examination.
pub open spec fn contact_scan(cs: Seq<PlayerContact>, cooldown_ready: bool) -> (Seq<usize>, bool)
    decreases cs.len(),
{
    if cs.len() == 0 {
        (Seq::empty(), false)
    } else {
        let (d, hit) = contact_scan(cs.drop_last(), cooldown_ready);
        if hit {
            (d, true)
        } else if detonates(cs.last()) {
            (d.push((cs.len() - 1) as usize), false)
        } else if rams(cs.last(), cooldown_ready) {
            (d, true)
        } else {
            (d, false)
        }
    }
}

proof fn lemma_scan_stays_hit(cs: Seq<PlayerContact>, ready: bool, i: int)
    requires
        0 <= i <= cs.len(),
        contact_scan(cs.take(i), ready).1,
    ensures
        contact_scan(cs, ready) == contact_scan(cs.take(i), ready),
    decreases cs.len(),
{
    if i < cs.len() {
        assert(cs.drop_last().take(i) =~= cs.take(i));
        lemma_scan_stays_hit(cs.drop_last(), ready, i);
    } else {
        assert(cs.take(i) =~= cs);
    }
}

/// Resolves the enemies touching the player, in the order given.
pub fn resolve_player_contacts(contacts: &Vec<PlayerContact>, cooldown_ready: bool) -> (outcome: ContactOutcome)
    ensures
        (outcome.detonations@, outcome.player_hit) == contact_scan(contacts@, cooldown_ready),
{
    let mut detonations: Vec<usize> = Vec::new();
    let mut player_hit = false;
    let mut i: usize = 0;
    while i < contacts.len() && !player_hit
        invariant
            0 <= i <= contacts.len(),
            (detonations@, player_hit) == contact_scan(contacts@.take(i as int), cooldown_ready),
        decreases contacts.len() - i,
    {
        let contact = contacts[i];
        proof {
            assert(contacts@.take(i + 1).drop_last() =~= contacts@.take(i as int));
            assert(contacts@.take(i + 1).last() == contacts@[i as int]);
        }
        if contact.touching && contact.explodes_on_contact {
            detonations.push(i);
        } else if contact.touching && cooldown_ready {
            player_hit = true;
        }
        i = i + 1;
    }
    proof {
        if player_hit {
            lemma_scan_stays_hit(contacts@, cooldown_ready, i as int);
        } else {
            assert(contacts@.take(i as int) =~= contacts@);
        }
    }
    ContactOutcome { detonations, player_hit }
}

proof fn lemma_unready_detonates_all(cs: Seq<PlayerContact>, ready: bool)
    requires
        !ready,
        cs.len() <= usize::MAX,
    ensures
        !contact_scan(cs, ready).1,
        forall|j: int| #![trigger detonates(cs[j])]
            0 <= j < cs.len() && detonates(cs[j]) ==> contact_scan(cs, ready).0.contains(j as usize),
    decreases cs.len(),
{
    if cs.len() > 0 {
        let prefix = cs.drop_last();
        lemma_unready_detonates_all(prefix, ready);
        let d0 = contact_scan(prefix, ready).0;
        let d = contact_scan(cs, ready).0;
        let n = cs.len() - 1;
        assert forall|j: int| 0 <= j < cs.len() && detonates(cs[j]) implies d.contains(j as usize) by {
            if j < n {
                assert(cs[j] == prefix[j]);
                assert(detonates(prefix[j]));
                let w = choose|w: int| 0 <= w < d0.len() && d0[w] == j as usize;
                if detonates(cs.last()) {
                    assert(d == d0.push(n as usize));
                    assert(d[w] == d0[w]);
                } else {
                    assert(d == d0);
                }
                assert(d[w] == j as usize);
            } else {
                assert(cs.last() == cs[j]);
                assert(d == d0.push(n as usize));
                assert(d[d0.len() as int] == j as usize);
            }
        }
    }
}

/// What the contact resolution promises: the player is hurt exactly when
/// some touching enemy rams while the cooldown is ready; explosive enemies
/// never hurt by ramming; every detonation is a touching explosive enemy,
/// listed in increasing order, before the ramming hit if there is one; and
/// without a ready cooldown every touching explosive enemy detonates.
pub proof fn lemma_contact_resolution(cs: Seq<PlayerContact>, ready: bool)
    requires
        cs.len() <= usize::MAX,
    ensures
        ({
            let (d, hit) = contact_scan(cs, ready);
            &&& hit <==> exists|i: int| 0 <= i < cs.len() && #[trigger] rams(cs[i], ready)
            &&& forall|k: int| #![trigger d[k]] 0 <= k < d.len() ==> d[k] < cs.len() && detonates(cs[d[k] as int])
            &&& forall|k: int, l: int| 0 <= k < l < d.len() ==> d[k] < d[l]
            &&& forall|k: int, j: int| #![trigger d[k], rams(cs[j], ready)]
                0 <= k < d.len() && 0 <= j < d[k] ==> !rams(cs[j], ready)
        }),
        !ready ==> forall|j: int| #![trigger detonates(cs[j])]
            0 <= j < cs.len() && detonates(cs[j]) ==> contact_scan(cs, ready).0.contains(j as usize),
    decreases cs.len(),
{
    if !ready {
        lemma_unready_detonates_all(cs, ready);
    }
    if cs.len() > 0 {
        let prefix = cs.drop_last();
        lemma_contact_resolution(prefix, ready);
        let (d0, hit0) = contact_scan(prefix, ready);
        let n = cs.len() - 1;
        assert forall|j: int| 0 <= j < n implies cs[j] == prefix[j] by {}
        if hit0 {
            let w = choose|i: int| 0 <= i < prefix.len() && rams(prefix[i], ready);
            assert(rams(cs[w], ready));
        }
        let (d, hit) = contact_scan(cs, ready);
        if !hit0 && !detonates(cs.last()) && !rams(cs.last(), ready) {
            assert forall|i: int| 0 <= i < cs.len() implies !rams(cs[i], ready) by {
                if i < n {
                    assert(!rams(prefix[i], ready));
                }
            }
        }
        assert forall|k: int, j: int| #![trigger d[k], rams(cs[j], ready)]
            0 <= k < d.len() && 0 <= j < d[k] implies !rams(cs[j], ready) by {
            if k < d0.len() {
                assert(d[k] == d0[k]);
                assert(d0[k] < prefix.len());
                assert(cs[j] == prefix[j]);
                assert(!rams(prefix[j], ready));
            } else {
                assert(!hit0);
                assert(cs[j] == prefix[j]);
                assert(!rams(prefix[j], ready));
            }
        }
        assert(d == d0 || d == d0.push(n as usize));
        assert forall|k: int| #![trigger d[k]] 0 <= k < d.len() implies d[k] < cs.len() && detonates(cs[d[k] as int]) by {
            if k < d0.len() {
                assert(d[k] == d0[k]);
                assert(d0[k] < prefix.len());
                assert(cs[d[k] as int] == prefix[d0[k] as int]);
            } else {
                assert(d == d0.push(n as usize));
                assert(d[k] == n);
                assert(!hit0 && detonates(cs.last()));
            }
        }
        assert forall|k: int, l: int| 0 <= k < l < d.len() implies d[k] < d[l] by {
            assert(d[k] == d0[k]);
            if l < d0.len() {
                assert(d[l] == d0[l]);
            } else {
                assert(d[l] == n);
                assert(d0[k] < prefix.len());
            }
        }
        if !hit0 && detonates(cs.last()) {
            assert(d == d0.push(n as usize));
            assert forall|i: int| 0 <= i < cs.len() implies !rams(cs[i], ready) by {
                if i < n {
                    assert(!rams(prefix[i], ready));
                }
            }
        }
    }
}

/// Whatever the cooldown, a touching explosive enemy starts to detonate
/// unless an earlier enemy in the list already rammed the player; the
/// player is hurt exactly when some touching non-explosive enemy meets a
/// ready cooldown; and every listed detonation is a touching explosive
/// enemy.
pub proof fn lemma_touching_explosives_detonate(cs: Seq<PlayerContact>, ready: bool)
    requires
        cs.len() <= usize::MAX,
    ensures
        forall|j: int| #![trigger cs[j]]
            0 <= j < cs.len() && cs[j].touching && cs[j].explodes_on_contact
                && (forall|i: int| 0 <= i < j ==> !(cs[i].touching && !cs[i].explodes_on_contact && ready))
                ==> contact_scan(cs, ready).0.contains(j as usize),
        contact_scan(cs, ready).1 <==> (ready && exists|i: int|
            0 <= i < cs.len() && #[trigger] cs[i].touching && !cs[i].explodes_on_contact),
        forall|k: int| #![trigger contact_scan(cs, ready).0[k]]
            0 <= k < contact_scan(cs, ready).0.len() ==> {
                let j = contact_scan(cs, ready).0[k] as int;
                0 <= j < cs.len() && cs[j].touching && cs[j].explodes_on_contact
            },
    decreases cs.len(),
{
    lemma_contact_resolution(cs, ready);
    let (d, hit) = contact_scan(cs, ready);
    if hit {
        let w = choose|i: int| 0 <= i < cs.len() && rams(cs[i], ready);
        assert(cs[w].touching && !cs[w].explodes_on_contact);
    }
    if ready && exists|i: int| 0 <= i < cs.len() && #[trigger] cs[i].touching && !cs[i].explodes_on_contact {
        let w = choose|i: int| 0 <= i < cs.len() && #[trigger] cs[i].touching && !cs[i].explodes_on_contact;
        assert(rams(cs[w], ready));
    }
    assert forall|k: int| #![trigger d[k]] 0 <= k < d.len() implies {
        let j = d[k] as int;
        0 <= j < cs.len() && cs[j].touching && cs[j].explodes_on_contact
    } by {
        assert(detonates(cs[d[k] as int]));
    }
    if cs.len() > 0 {
        let prefix = cs.drop_last();
        lemma_touching_explosives_detonate(prefix, ready);
        let (d0, hit0) = contact_scan(prefix, ready);
        let n = cs.len() - 1;
        assert forall|j: int| #![trigger cs[j]]
            0 <= j < cs.len() && cs[j].touching && cs[j].explodes_on_contact
                && (forall|i: int| 0 <= i < j ==> !(cs[i].touching && !cs[i].explodes_on_contact && ready))
            implies d.contains(j as usize) by {
            if j < n {
                assert(prefix[j] == cs[j]);
                assert forall|i: int| 0 <= i < j implies !(prefix[i].touching && !prefix[i].explodes_on_contact && ready) by {
                    assert(prefix[i] == cs[i]);
                }
                assert(d0.contains(j as usize));
                let w = choose|w: int| 0 <= w < d0.len() && d0[w] == j as usize;
                if hit0 {
                    assert(d == d0);
                } else if detonates(cs.last()) {
                    assert(d == d0.push(n as usize));
                    assert(d[w] == d0[w]);
                } else {
                    assert(d == d0);
                }
                assert(d[w] == j as usize);
            } else {
                assert(j == n);
                if hit0 {
                    let w = choose|i: int| 0 <= i < prefix.len() && #[trigger] prefix[i].touching && !prefix[i].explodes_on_contact;
                    assert(prefix[w] == cs[w]);
                    assert(!(cs[w].touching && !cs[w].explodes_on_contact && ready));
                    assert(false);
                }
                assert(cs.last() == cs[j]);
                assert(d == d0.push(n as usize));
                assert(d[d0.len() as int] == j as usize);
            }
        }
    }
}

/// The first touching enemy, which is the one a projectile hits.
pub fn first_touching(touching: &Vec<bool>) -> (hit: Option<usize>)
    ensures
        match hit {
            Some(i) => i < touching.len() && touching@[i as int]
                && forall|j: int| 0 <= j < i ==> !touching@[j],
            None => forall|j: int| 0 <= j < touching.len() ==> !touching@[j],
        },
{
    let mut i: usize = 0;
    while i < touching.len()
        invariant
            0 <= i <= touching.len(),
            forall|j: int| 0 <= j < i ==> !touching@[j],
        decreases touching.len() - i,
    {
        if touching[i] {
            return Some(i);
        }
        i = i + 1;
    }
    None
}

/// Whether any of the other enemies touches a kamikaze drone, which makes it
/// detonate.
pub fn touches_any(touching: &Vec<bool>) -> (any: bool)
    ensures
        any == exists|j: int| 0 <= j < touching.len() && touching@[j],
{
    match first_touching(touching) {
        Some(i) => {
            assert(touching@[i as int]);
            true
        },
        None => false,
    }
}

} // verus!
