//! Game-wide components shared across roles: the arsonist's gasoline, the
//! player-list tags, and the mafia's guarantee of a killing role.

use vstd::prelude::*;

use crate::game::{idxs_in_bounds, only_players_changed, ArsonistDoused, Game};
use crate::grave::GraveKiller;
use crate::outside::{choose_index, tag_list_contains, tag_list_new, tag_list_push};
use crate::power::AttackPower;
use crate::role::{Faction, Role};
use crate::role_state::{default_state, spec_role_of};
use crate::tag::Tag;
use crate::visit::PlayerIndex;

verus! {

impl ArsonistDoused {
    /// Whether the player is currently covered in gasoline.
    pub fn doused(&self, player: PlayerIndex) -> (r: bool)
        ensures
            r == self.doused_players@.contains(player),
    {
        let mut k: usize = 0;
        while k < self.doused_players.len()
            invariant
                k <= self.doused_players@.len(),
                forall|m: int| 0 <= m < k ==> self.doused_players@[m] != player,
            decreases self.doused_players@.len() - k,
        {
            if self.doused_players[k] == player {
                return true;
            }
            k = k + 1;
        }
        false
    }
}

/// The tag list a player list keeps for `about`: the first entry keyed by
/// that player, if any.
pub open spec fn spec_tag_list_for(
    tags: Seq<(PlayerIndex, vec1::Vec1<Tag>)>,
    about: PlayerIndex,
) -> Option<vec1::Vec1<Tag>>
    decreases tags.len(),
{
    if tags.len() == 0 {
        None
    } else if tags[0].0 == about {
        Some(tags[0].1)
    } else {
        spec_tag_list_for(tags.skip(1), about)
    }
}

/// Whether a player list pins the tag on `about`.
pub open spec fn spec_tag_has(
    tags: Seq<(PlayerIndex, vec1::Vec1<Tag>)>,
    about: PlayerIndex,
    tag: Tag,
) -> bool {
    spec_tag_list_for(tags, about) matches Some(l) && crate::outside::tag_list_contents(
        l,
    ).contains(tag)
}

/// Whether the player's list pins the tag on `about`.
pub open spec fn spec_has_tag(p: crate::player::Player, about: PlayerIndex, tag: Tag) -> bool {
    spec_tag_has(p.player_tags@, about, tag)
}

/// Every tag the first list pins, the second pins too.
pub open spec fn spec_tags_preserve(
    a: Seq<(PlayerIndex, vec1::Vec1<Tag>)>,
    b: Seq<(PlayerIndex, vec1::Vec1<Tag>)>,
) -> bool {
    forall|x: PlayerIndex, tg: Tag| spec_tag_has(a, x, tg) ==> #[trigger] spec_tag_has(b, x, tg)
}

/// The first entry keyed by `about` is the one at the first matching index.
proof fn lemma_tag_list_first(
    tags: Seq<(PlayerIndex, vec1::Vec1<Tag>)>,
    about: PlayerIndex,
    f: int,
)
    requires
        0 <= f < tags.len(),
        forall|m: int| 0 <= m < f ==> (#[trigger] tags[m]).0 != about,
        tags[f].0 == about,
    ensures
        spec_tag_list_for(tags, about) == Some(tags[f].1),
    decreases f,
{
    if f > 0 {
        lemma_tag_list_first(tags.skip(1), about, f - 1);
        assert(tags.skip(1)[f - 1] == tags[f]);
        assert(forall|m: int| 0 <= m < f - 1 ==> (#[trigger] tags.skip(1)[m]) == tags[m + 1]);
    }
}

/// A list with no entry keyed by `about` keeps none for it.
proof fn lemma_tag_list_absent(tags: Seq<(PlayerIndex, vec1::Vec1<Tag>)>, about: PlayerIndex)
    requires
        forall|m: int| 0 <= m < tags.len() ==> (#[trigger] tags[m]).0 != about,
    ensures
        spec_tag_list_for(tags, about) is None,
    decreases tags.len(),
{
    if tags.len() > 0 {
        lemma_tag_list_absent(tags.skip(1), about);
    }
}

/// Appending an entry changes only the key it carries, and only when that
/// key had no entry yet.
proof fn lemma_tag_list_push(
    tags: Seq<(PlayerIndex, vec1::Vec1<Tag>)>,
    e: (PlayerIndex, vec1::Vec1<Tag>),
    x: PlayerIndex,
)
    ensures
        spec_tag_list_for(tags.push(e), x) == if spec_tag_list_for(tags, x) is Some {
            spec_tag_list_for(tags, x)
        } else if e.0 == x {
            Some(e.1)
        } else {
            None::<vec1::Vec1<Tag>>
        },
    decreases tags.len(),
{
    if tags.len() == 0 {
        assert(tags.push(e)[0] == e);
        assert(tags.push(e).skip(1) =~= Seq::<(PlayerIndex, vec1::Vec1<Tag>)>::empty());
        assert(spec_tag_list_for(tags.push(e).skip(1), x) is None);
    } else {
        lemma_tag_list_push(tags.skip(1), e, x);
        assert(tags.push(e)[0] == tags[0]);
        assert(tags.push(e).skip(1) =~= tags.skip(1).push(e));
        if tags[0].0 == x {
            assert(spec_tag_list_for(tags.push(e), x) == Some(tags[0].1));
            assert(spec_tag_list_for(tags, x) == Some(tags[0].1));
        } else {
            assert(spec_tag_list_for(tags.push(e), x) == spec_tag_list_for(
                tags.skip(1).push(e),
                x,
            ));
            assert(spec_tag_list_for(tags, x) == spec_tag_list_for(tags.skip(1), x));
        }
    }
}

/// Replacing the entry at one index with one under the same key leaves
/// every other key's first entry as it was.
proof fn lemma_tag_list_update_other(
    tags: Seq<(PlayerIndex, vec1::Vec1<Tag>)>,
    f: int,
    e: (PlayerIndex, vec1::Vec1<Tag>),
    x: PlayerIndex,
)
    requires
        0 <= f < tags.len(),
        tags[f].0 == e.0,
        x != e.0,
    ensures
        spec_tag_list_for(tags.update(f, e), x) == spec_tag_list_for(tags, x),
    decreases f,
{
    if f == 0 {
        assert(tags.update(0, e)[0] == e);
        assert(tags.update(0, e).skip(1) =~= tags.skip(1));
    } else {
        lemma_tag_list_update_other(tags.skip(1), f - 1, e, x);
        assert(tags.update(f, e)[0] == tags[0]);
        assert(tags.update(f, e).skip(1) =~= tags.skip(1).update(f - 1, e));
    }
}

impl Game {
    /// The arsonist-gasoline component.
    pub fn arsonist_doused(&self) -> (r: &ArsonistDoused)
        ensures
            *r == self.arsonist_doused,
    {
        &self.arsonist_doused
    }

    /// Whether player `owner` has pinned the given tag on `about`.
    pub fn has_player_tag(&self, owner: PlayerIndex, about: PlayerIndex, tag: Tag) -> (r: bool)
        requires
            owner < self.n(),
        ensures
            r == spec_has_tag(self.players@[owner as int], about, tag),
    {
        let tags = &self.players[owner].player_tags;
        let mut k: usize = 0;
        while k < tags.len()
            invariant
                k <= tags@.len(),
                tags@ == self.players@[owner as int].player_tags@,
                forall|m: int| 0 <= m < k ==> (#[trigger] tags@[m]).0 != about,
            decreases tags.len() - k,
        {
            if tags[k].0 == about {
                proof {
                    lemma_tag_list_first(tags@, about, k as int);
                }
                return tag_list_contains(&tags[k].1, tag);
            }
            k = k + 1;
        }
        proof {
            lemma_tag_list_absent(tags@, about);
        }
        false
    }

    /// Pin a tag on `about` in `owner`'s player list: afterwards the list
    /// carries it, and every tag it carried before it still carries.
    pub fn push_player_tag(&mut self, owner: PlayerIndex, about: PlayerIndex, tag: Tag)
        requires
            owner < old(self).n(),
            about < old(self).n(),
        ensures
            old(self).wf() ==> final(self).wf(),
            only_players_changed(*old(self), *final(self), owner as int),
            final(self).players@[owner as int] == (crate::player::Player {
                player_tags: final(self).players@[owner as int].player_tags,
                ..old(self).players@[owner as int]
            }),
            spec_has_tag(final(self).players@[owner as int], about, tag),
            spec_tags_preserve(
                old(self).players@[owner as int].player_tags@,
                final(self).players@[owner as int].player_tags@,
            ),
    {
        let ghost tags0 = self.players@[owner as int].player_tags@;
        let tags = &self.players[owner].player_tags;
        let n = tags.len();
        let mut k: usize = 0;
        let mut first: usize = n;
        while k < n
            invariant
                k <= n,
                n == tags@.len(),
                tags@ == tags0,
                first <= n,
                first == n ==> forall|m: int| 0 <= m < k ==> (#[trigger] tags@[m]).0 != about,
                first < n ==> tags@[first as int].0 == about && forall|m: int|
                    0 <= m < first ==> (#[trigger] tags@[m]).0 != about,
            decreases n - k,
        {
            if first == n && tags[k].0 == about {
                first = k;
            }
            k = k + 1;
        }
        let found: Option<usize> = if first < n {
            Some(first)
        } else {
            None
        };
        let player = &mut self.players[owner];
        match found {
            Some(f) => {
                if f < player.player_tags.len() {
                    let ghost oldlist = player.player_tags@[f as int].1;
                    tag_list_push(&mut player.player_tags[f].1, tag);
                    proof {
                        let newtags = player.player_tags@;
                        let e = newtags[f as int];
                        assert(newtags =~= tags0.update(f as int, e));
                        lemma_tag_list_first(tags0, about, f as int);
                        lemma_tag_list_first(newtags, about, f as int);
                        let c0 = crate::outside::tag_list_contents(oldlist);
                        let c1 = crate::outside::tag_list_contents(e.1);
                        assert(c1 == c0.push(tag));
                        assert(c1.last() == tag);
                        assert(spec_tag_has(newtags, about, tag));
                        assert forall|x: PlayerIndex, tg: Tag|
                            spec_tag_has(tags0, x, tg) implies #[trigger] spec_tag_has(
                            newtags,
                            x,
                            tg,
                        ) by {
                            if x == about {
                                let m = choose|m: int| 0 <= m < c0.len() && c0[m] == tg;
                                assert(c1[m] == tg);
                            } else {
                                lemma_tag_list_update_other(tags0, f as int, e, x);
                            }
                        }
                    }
                }
            },
            None => {
                let fresh = tag_list_new(tag);
                let ghost freshlist = fresh;
                player.player_tags.push((about, fresh));
                proof {
                    let e = (about, freshlist);
                    let newtags = player.player_tags@;
                    assert(newtags =~= tags0.push(e));
                    lemma_tag_list_absent(tags0, about);
                    lemma_tag_list_push(tags0, e, about);
                    assert(crate::outside::tag_list_contents(freshlist) == seq![tag]);
                    assert(crate::outside::tag_list_contents(freshlist)[0] == tag);
                    assert(spec_tag_has(newtags, about, tag));
                    assert forall|x: PlayerIndex, tg: Tag|
                        spec_tag_has(tags0, x, tg) implies #[trigger] spec_tag_has(
                        newtags,
                        x,
                        tg,
                    ) by {
                        lemma_tag_list_push(tags0, e, x);
                    }
                }
            },
        }
    }

    /// Douse a player in gasoline; arsonists themselves cannot be doused
    /// and a player already doused is not doused twice.  Every arsonist's
    /// player list is tagged with the new dousing; nothing else of any
    /// player changes.
    pub fn douse(&mut self, player: PlayerIndex)
        requires
            player < old(self).n(),
            old(self).wf(),
        ensures
            final(self).wf(),
            final(self).n() == old(self).n(),
            crate::actions::night_action_frame(*old(self), *final(self)),
            final(self).queued_messages == old(self).queued_messages,
            forall|j: int|
                0 <= j < old(self).n() ==> (#[trigger] final(self).players@[j])
                    == (crate::player::Player {
                    player_tags: final(self).players@[j].player_tags,
                    ..old(self).players@[j]
                }),
            final(self).arsonist_doused.doused_players@ == if spec_role_of(
                old(self).players@[player as int].role_state,
            ) is Arsonist || old(self).arsonist_doused.doused_players@.contains(player) {
                old(self).arsonist_doused.doused_players@
            } else {
                old(self).arsonist_doused.doused_players@.push(player)
            },
            !(spec_role_of(old(self).players@[player as int].role_state) is Arsonist)
                ==> spec_arsonists_tagged(*final(self)),
    {
        if matches!(self.players[player].role_state.role(), Role::Arsonist) {
            return ;
        }
        if !self.arsonist_doused.doused(player) {
            self.arsonist_doused.doused_players.push(player);
        }
        self.tag_doused_players_for_arsonists();
    }

    /// Wash the gasoline off a player.
    pub fn clean_doused(&mut self, player: PlayerIndex)
        requires
            old(self).wf(),
        ensures
            final(self).wf(),
            final(self).n() == old(self).n(),
            crate::actions::night_action_frame(*old(self), *final(self)),
            final(self).queued_messages == old(self).queued_messages,
            !final(self).arsonist_doused.doused_players@.contains(player),
    {
        let doused = &self.arsonist_doused.doused_players;
        let mut kept: Vec<PlayerIndex> = Vec::new();
        let mut k: usize = 0;
        while k < doused.len()
            invariant
                idxs_in_bounds(doused@, self.n()) ==> idxs_in_bounds(kept@, self.n()),
                !kept@.contains(player),
            decreases doused.len() - k,
        {
            if doused[k] != player {
                kept.push(doused[k]);
            }
            k = k + 1;
        }
        self.arsonist_doused.doused_players = kept;
    }

    /// Set every doused player on fire: each living doused non-arsonist
    /// takes a protection-piercing attack from the igniter.  Whoever is
    /// neither doused nor the igniter is untouched; each living doused
    /// non-arsonist is marked attacked, dies unless invincible, and an
    /// arsonist's cause lands on every victim the fire takes.
    #[verifier::rlimit(100)]
    pub fn ignite(&mut self, igniter: PlayerIndex)
        requires
            igniter < old(self).n(),
            old(self).wf(),
        ensures
            final(self).wf(),
            final(self).n() == old(self).n(),
            crate::actions::night_action_frame(*old(self), *final(self)),
            final(self).queued_messages == old(self).queued_messages,
            final(self).arsonist_doused == old(self).arsonist_doused,
            forall|j: int|
                0 <= j < old(self).n() && j != igniter && !old(self)
                    .arsonist_doused.doused_players@.contains(j as usize)
                    ==> final(self).players@[j] == old(self).players@[j],
            forall|j: int|
                0 <= j < old(self).n() && j != igniter && (!(#[trigger] old(self).players@[j]).alive
                    || spec_role_of(old(self).players@[j].role_state) is Arsonist)
                    ==> final(self).players@[j] == old(self).players@[j],
            forall|j: int|
                0 <= j < old(self).n() && old(self).arsonist_doused.doused_players@.contains(
                    j as usize,
                ) && (#[trigger] old(self).players@[j]).alive && !(spec_role_of(
                    old(self).players@[j].role_state,
                ) is Arsonist) ==> {
                    let oldnv = old(self).players@[j].night_variables;
                    let newnv = final(self).players@[j].night_variables;
                    let blocked = crate::power::attack_level(AttackPower::ProtectionPiercing)
                        <= crate::power::defense_level(oldnv.defense);
                    &&& crate::game::same_player_except_night(
                        old(self).players@[j],
                        final(self).players@[j],
                    )
                    &&& newnv.attacked
                    &&& newnv.defense == oldnv.defense
                    &&& newnv.died == (oldnv.died || !blocked)
                    &&& (!blocked ==> newnv.grave_killers@.contains(
                        GraveKiller::Role(Role::Arsonist),
                    ))
                },
    {
        let n = self.players.len();
        let mut k: usize = 0;
        while k < self.arsonist_doused.doused_players.len()
            invariant
                self.wf(),
                self.n() == n,
                igniter < n,
                crate::actions::night_action_frame(*old(self), *self),
                self.queued_messages == old(self).queued_messages,
                self.arsonist_doused == old(self).arsonist_doused,
                k <= self.arsonist_doused.doused_players@.len(),
                forall|j: int|
                    0 <= j < n && j != igniter && !old(self)
                        .arsonist_doused.doused_players@.take(k as int).contains(j as usize)
                        ==> self.players@[j] == old(self).players@[j],
                forall|j: int|
                    0 <= j < n ==> (#[trigger] self.players@[j]).role_state
                        == old(self).players@[j].role_state,
                forall|j: int|
                    0 <= j < n && j != igniter && (!(#[trigger] old(self).players@[j]).alive
                        || spec_role_of(old(self).players@[j].role_state) is Arsonist)
                        ==> self.players@[j] == old(self).players@[j],
                crate::game::same_player_except_night(
                    old(self).players@[igniter as int],
                    self.players@[igniter as int],
                ),
                !old(self).arsonist_doused.doused_players@.take(k as int).contains(igniter)
                    ==> crate::game::nv_eq_except_messages(
                    old(self).players@[igniter as int].night_variables,
                    self.players@[igniter as int].night_variables,
                ),
                forall|j: int|
                    0 <= j < n && old(self).arsonist_doused.doused_players@.take(
                        k as int,
                    ).contains(j as usize) && (#[trigger] old(self).players@[j]).alive && !(
                    spec_role_of(old(self).players@[j].role_state) is Arsonist) ==> {
                        let oldnv = old(self).players@[j].night_variables;
                        let newnv = self.players@[j].night_variables;
                        let blocked = crate::power::attack_level(AttackPower::ProtectionPiercing)
                            <= crate::power::defense_level(oldnv.defense);
                        &&& crate::game::same_player_except_night(
                            old(self).players@[j],
                            self.players@[j],
                        )
                        &&& newnv.attacked
                        &&& newnv.defense == oldnv.defense
                        &&& newnv.died == (oldnv.died || !blocked)
                        &&& (!blocked ==> newnv.grave_killers@.contains(
                            GraveKiller::Role(Role::Arsonist),
                        ))
                    },
            decreases self.arsonist_doused.doused_players.len() - k,
        {
            let ghost dousedq = old(self).arsonist_doused.doused_players@;
            let p = self.arsonist_doused.doused_players[k];
            proof {
                assert(dousedq.take(k + 1 as int).drop_last() =~= dousedq.take(k as int));
                assert(dousedq.take(k + 1 as int).last() == p);
                assert forall|j: int|
                    #[trigger] dousedq.take(k + 1 as int).contains(j as usize) implies dousedq.take(
                    k as int,
                ).contains(j as usize) || j as usize == p by {
                    if j as usize != p {
                        let i = choose|i: int|
                            0 <= i < dousedq.take(k + 1 as int).len() && #[trigger] dousedq.take(
                                k + 1 as int,
                            )[i] == j as usize;
                        assert(dousedq.take(k as int)[i] == j as usize);
                    }
                }
            }
            let ghost pre = *self;
            if p < n && !matches!(self.players[p].role_state.role(), Role::Arsonist)
                && self.players[p].alive {
                self.try_night_kill_single_attacker(
                    igniter,
                    p,
                    GraveKiller::Role(Role::Arsonist),
                    AttackPower::ProtectionPiercing,
                    true,
                );
                proof {
                    let oldnv = pre.players@[p as int].night_variables;
                    let newnv = self.players@[p as int].night_variables;
                    let blocked = crate::power::attack_level(AttackPower::ProtectionPiercing)
                        <= crate::power::defense_level(oldnv.defense);
                    if !blocked {
                        assert(newnv.grave_killers@.last() == GraveKiller::Role(Role::Arsonist));
                        assert(newnv.grave_killers@.contains(GraveKiller::Role(Role::Arsonist)));
                        assert forall|gk: GraveKiller|
                            oldnv.grave_killers@.contains(gk) implies newnv.grave_killers@.contains(
                            gk,
                        ) by {
                            let i = choose|i: int|
                                0 <= i < oldnv.grave_killers@.len() && oldnv.grave_killers@[i]
                                    == gk;
                            assert(newnv.grave_killers@[i] == gk);
                        }
                    }
                }
            }
            k = k + 1;
        }
        proof {
            assert(old(self).arsonist_doused.doused_players@.take(
                old(self).arsonist_doused.doused_players@.len() as int,
            ) =~= old(self).arsonist_doused.doused_players@);
        }
    }

    /// Tag every doused player in every arsonist's player list; nothing of
    /// any player but their tag list changes, and no tag already pinned is
    /// lost.
    pub fn tag_doused_players_for_arsonists(&mut self)
        requires
            old(self).wf(),
        ensures
            final(self).wf(),
            final(self).n() == old(self).n(),
            crate::actions::night_action_frame(*old(self), *final(self)),
            final(self).queued_messages == old(self).queued_messages,
            final(self).arsonist_doused == old(self).arsonist_doused,
            forall|j: int|
                0 <= j < old(self).n() ==> (#[trigger] final(self).players@[j])
                    == (crate::player::Player {
                    player_tags: final(self).players@[j].player_tags,
                    ..old(self).players@[j]
                }),
            spec_arsonists_tagged(*final(self)),
    {
        let n = self.players.len();
        let mut a: usize = 0;
        while a < n
            invariant
                self.wf(),
                self.n() == n,
                crate::actions::night_action_frame(*old(self), *self),
                self.queued_messages == old(self).queued_messages,
                self.arsonist_doused == old(self).arsonist_doused,
                forall|j: int|
                    0 <= j < n ==> (#[trigger] self.players@[j]) == (crate::player::Player {
                        player_tags: self.players@[j].player_tags,
                        ..old(self).players@[j]
                    }),
                forall|a2: int, d: int|
                    0 <= a2 < a && spec_role_of((#[trigger] self.players@[a2]).role_state)
                        is Arsonist && 0 <= d < self.arsonist_doused.doused_players@.len()
                        ==> spec_has_tag(
                        self.players@[a2],
                        #[trigger] self.arsonist_doused.doused_players@[d],
                        Tag::Doused,
                    ),
            decreases n - a,
        {
            if matches!(self.players[a].role_state.role(), Role::Arsonist) {
                let mut d: usize = 0;
                while d < self.arsonist_doused.doused_players.len()
                    invariant
                        self.wf(),
                        self.n() == n,
                        a < n,
                        crate::actions::night_action_frame(*old(self), *self),
                        self.queued_messages == old(self).queued_messages,
                        self.arsonist_doused == old(self).arsonist_doused,
                        d <= self.arsonist_doused.doused_players@.len(),
                        forall|j: int|
                            0 <= j < n ==> (#[trigger] self.players@[j])
                                == (crate::player::Player {
                                player_tags: self.players@[j].player_tags,
                                ..old(self).players@[j]
                            }),
                        forall|a2: int, d2: int|
                            0 <= a2 < a && spec_role_of((#[trigger] self.players@[a2]).role_state)
                                is Arsonist && 0 <= d2
                                < self.arsonist_doused.doused_players@.len() ==> spec_has_tag(
                                self.players@[a2],
                                #[trigger] self.arsonist_doused.doused_players@[d2],
                                Tag::Doused,
                            ),
                        forall|d2: int|
                            0 <= d2 < d ==> spec_has_tag(
                                self.players@[a as int],
                                #[trigger] self.arsonist_doused.doused_players@[d2],
                                Tag::Doused,
                            ),
                    decreases self.arsonist_doused.doused_players.len() - d,
                {
                    let p = self.arsonist_doused.doused_players[d];
                    proof {
                        assert(self.arsonist_doused.doused_players@[d as int] < self.n());
                    }
                    if !self.has_player_tag(a, p, Tag::Doused) {
                        let ghost mid = *self;
                        self.push_player_tag(a, p, Tag::Doused);
                        proof {
                            assert forall|a2: int, d2: int|
                                0 <= a2 < a && spec_role_of(
                                    (#[trigger] self.players@[a2]).role_state,
                                ) is Arsonist && 0 <= d2
                                    < self.arsonist_doused.doused_players@.len() implies spec_has_tag(
                                self.players@[a2],
                                #[trigger] self.arsonist_doused.doused_players@[d2],
                                Tag::Doused,
                            ) by {
                                assert(self.players@[a2] == mid.players@[a2]);
                            }
                            assert forall|d2: int| 0 <= d2 < d + 1 implies spec_has_tag(
                                self.players@[a as int],
                                #[trigger] self.arsonist_doused.doused_players@[d2],
                                Tag::Doused,
                            ) by {
                                if d2 < d {
                                    assert(spec_tag_has(
                                        mid.players@[a as int].player_tags@,
                                        mid.arsonist_doused.doused_players@[d2],
                                        Tag::Doused,
                                    ));
                                }
                            }
                        }
                    }
                    d = d + 1;
                }
            }
            a = a + 1;
        }
    }
}

/// Every arsonist's player list carries the doused tag for every player the
/// gasoline currently covers.
pub open spec fn spec_arsonists_tagged(g: Game) -> bool {
    forall|a: int, d: int|
        0 <= a < g.n() && spec_role_of((#[trigger] g.players@[a]).role_state) is Arsonist && 0 <= d
            < g.arsonist_doused.doused_players@.len() ==> spec_has_tag(
            g.players@[a],
            #[trigger] g.arsonist_doused.doused_players@[d],
            Tag::Doused,
        )
}

/// Some arsonist is still alive.
pub open spec fn spec_living_arsonist_exists(game: Game) -> bool {
    exists|j: int|
        0 <= j < game.n() && (#[trigger] game.players@[j]).alive && spec_role_of(
            game.players@[j].role_state,
        ) is Arsonist
}

/// The player has a suspicious aura from the arsonist's gasoline: doused,
/// while some arsonist is still alive.
pub open spec fn spec_suspicious_aura_douse(game: Game, player: PlayerIndex) -> bool {
    game.arsonist_doused.doused_players@.contains(player) && spec_living_arsonist_exists(game)
}

/// Whether the player has a suspicious aura from the arsonist's gasoline:
/// doused, while some arsonist is still alive.
pub fn has_suspicious_aura_douse(game: &Game, player: PlayerIndex) -> (r: bool)
    requires
        player < game.n(),
    ensures
        r == spec_suspicious_aura_douse(*game, player),
{
    if !game.arsonist_doused.doused(player) {
        return false;
    }
    let n = game.players.len();
    let mut k: usize = 0;
    while k < n
        invariant
            n == game.n(),
            game.arsonist_doused.doused_players@.contains(player),
            forall|j: int|
                0 <= j < k ==> !((#[trigger] game.players@[j]).alive && spec_role_of(
                    game.players@[j].role_state,
                ) is Arsonist),
        decreases n - k,
    {
        if game.players[k].alive && matches!(game.players[k].role_state.role(), Role::Arsonist) {
            return true;
        }
        k = k + 1;
    }
    false
}

/// The mafia as a team: helpers that keep the faction functional.
#[derive(Clone, Copy, Debug)]
pub struct Mafia;

impl Mafia {
    /// The indices of every mafia member, living or dead.
    pub fn get_members(game: &Game) -> (r: Vec<PlayerIndex>)
        ensures
            idxs_in_bounds(r@, game.n()),
    {
        let n = game.players.len();
        let mut out: Vec<PlayerIndex> = Vec::new();
        let mut k: usize = 0;
        while k < n
            invariant
                idxs_in_bounds(out@, game.n()),
                n == game.n(),
            decreases n - k,
        {
            if matches!(game.players[k].role_state.role().faction(), Faction::Mafia) {
                out.push(k);
            }
            k = k + 1;
        }
        out
    }

    /// The indices of every living mafia member.
    pub fn get_living_members(game: &Game) -> (r: Vec<PlayerIndex>)
        ensures
            idxs_in_bounds(r@, game.n()),
    {
        mafia_living_members(game)
    }

    /// After a death, make sure the mafia still has a killing role.
    pub fn on_any_death(game: &mut Game)
        requires
            old(game).wf(),
        ensures
            final(game).wf(),
            final(game).n() == old(game).n(),
            crate::actions::night_action_frame(*old(game), *final(game)),
    {
        give_mafia_killing_role(game);
    }
}

/// The indices of every living mafia member: sound and complete.
pub fn mafia_living_members(game: &Game) -> (r: Vec<PlayerIndex>)
    ensures
        idxs_in_bounds(r@, game.n()),
        forall|k: int|
            0 <= k < r@.len() ==> {
                let p = game.players@[(#[trigger] r@[k]) as int];
                p.alive && crate::role::spec_faction(spec_role_of(p.role_state)) == Faction::Mafia
            },
        forall|j: int|
            0 <= j < game.n() && (#[trigger] game.players@[j]).alive && crate::role::spec_faction(
                spec_role_of(game.players@[j].role_state),
            ) == Faction::Mafia ==> r@.contains(j as usize),
{
    let n = game.players.len();
    let mut out: Vec<PlayerIndex> = Vec::new();
    let mut k: usize = 0;
    while k < n
        invariant
            idxs_in_bounds(out@, game.n()),
            n == game.n(),
            forall|m: int|
                0 <= m < out@.len() ==> {
                    let p = game.players@[(#[trigger] out@[m]) as int];
                    p.alive && crate::role::spec_faction(spec_role_of(p.role_state))
                        == Faction::Mafia
                },
            forall|j: int|
                0 <= j < k && (#[trigger] game.players@[j]).alive && crate::role::spec_faction(
                    spec_role_of(game.players@[j].role_state),
                ) == Faction::Mafia ==> out@.contains(j as usize),
        decreases n - k,
    {
        let ghost pre = out@;
        if game.players[k].alive && matches!(game.players[k].role_state.role().faction(), Faction::Mafia) {
            out.push(k);
        }
        proof {
            assert forall|j: int|
                0 <= j < k + 1 && (#[trigger] game.players@[j]).alive
                    && crate::role::spec_faction(spec_role_of(game.players@[j].role_state))
                    == Faction::Mafia implies out@.contains(j as usize) by {
                if j < k {
                    assert(pre.contains(j as usize));
                    let m = choose|m: int| 0 <= m < pre.len() && pre[m] == j as usize;
                    assert(out@[m] == j as usize);
                } else {
                    assert(out@.last() == k as usize);
                }
            }
        }
        k = k + 1;
    }
    out
}

/// Whether some living player holds a mafia killing role.
pub open spec fn spec_mafia_killing_exists(game: Game) -> bool {
    exists|j: int|
        0 <= j < game.n() && (#[trigger] game.players@[j]).alive && (spec_role_of(
            game.players@[j].role_state,
        ) is Godfather || spec_role_of(game.players@[j].role_state) is Mafioso)
}

/// Whether the mafia has some living member.
pub open spec fn spec_living_mafia_exists(game: Game) -> bool {
    exists|j: int|
        0 <= j < game.n() && (#[trigger] game.players@[j]).alive && crate::role::spec_faction(
            spec_role_of(game.players@[j].role_state),
        ) == Faction::Mafia
}

/// What the mafia top-up does: nothing when a living killing role already
/// exists or the mafia has no living member; otherwise exactly one living
/// mafia member's role state is replaced by the mafioso's starting state,
/// and nothing else of the game changes.
pub open spec fn spec_mafia_top_up(oldg: Game, newg: Game) -> bool {
    if spec_mafia_killing_exists(oldg) || !spec_living_mafia_exists(oldg) {
        newg == oldg
    } else {
        exists|j: int|
            {
                &&& 0 <= j < oldg.n()
                &&& (#[trigger] oldg.players@[j]).alive
                &&& crate::role::spec_faction(spec_role_of(oldg.players@[j].role_state))
                    == Faction::Mafia
                &&& only_players_changed(oldg, newg, j)
                &&& newg.players@[j] == (crate::player::Player {
                    role_state: newg.players@[j].role_state,
                    ..oldg.players@[j]
                })
                &&& spec_role_of(newg.players@[j].role_state) is Mafioso
            }
    }
}

/// Whether some living player already holds a mafia killing role.
pub fn mafia_killing_exists(game: &Game) -> (r: bool)
    ensures
        r == spec_mafia_killing_exists(*game),
{
    let n = game.players.len();
    let mut k: usize = 0;
    while k < n
        invariant
            k <= n,
            n == game.n(),
            forall|j: int|
                0 <= j < k ==> !((#[trigger] game.players@[j]).alive && (spec_role_of(
                    game.players@[j].role_state,
                ) is Godfather || spec_role_of(game.players@[j].role_state) is Mafioso)),
        decreases n - k,
    {
        if game.players[k].alive && matches!(
            game.players[k].role_state.role(),
            Role::Godfather | Role::Mafioso,
        ) {
            return true;
        }
        k = k + 1;
    }
    false
}

/// Make sure the mafia can kill: when no living member holds a killing
/// role, a living member chosen at random becomes the mafioso.  When the
/// mafia has no living members at all, nothing changes.  Whichever member
/// the random choice lands on, afterwards some living player holds a
/// killing role whenever the mafia is alive at all, and at most that one
/// player's role state changed.
pub fn give_mafia_killing_role(game: &mut Game)
    requires
        old(game).wf(),
    ensures
        final(game).wf(),
        final(game).n() == old(game).n(),
        crate::actions::night_action_frame(*old(game), *final(game)),
        spec_mafia_top_up(*old(game), *final(game)),
        spec_living_mafia_exists(*old(game)) ==> spec_mafia_killing_exists(*final(game)),
{
    if mafia_killing_exists(game) {
        return ;
    }
    let members = mafia_living_members(game);
    if members.len() == 0 {
        proof {
            if spec_living_mafia_exists(*game) {
                let j = choose|j: int|
                    0 <= j < game.n() && (#[trigger] game.players@[j]).alive
                        && crate::role::spec_faction(spec_role_of(game.players@[j].role_state))
                        == Faction::Mafia;
                assert(members@.contains(j as usize));
            }
        }
        return ;
    }
    let pick = choose_index(members.len());
    let chosen = members[pick];
    game.set_role_state(chosen, default_state(Role::Mafioso));
    proof {
        assert(only_players_changed(*old(game), *game, chosen as int));
        assert(spec_role_of(game.players@[chosen as int].role_state) is Mafioso);
        assert(game.players@[chosen as int].alive);
    }
}

} // verus!
