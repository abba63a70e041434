//! What happens when the player meets a bone or a hawk.
//!
//! Every bone is tested against every player, and every hawk against every
//! player. A bone that touches a player is collected: the score grows by one
//! and the bone jumps away to the right. A hawk that strikes a player puts
//! that player on the ground.

use crate::bone::{
    lemma_collected_bone_is_clear, lemma_touching_bone_can_respawn, Bone, BONE_RESPAWN_SHIFT,
    BONE_RESPAWN_Y_MAX, BONE_RESPAWN_Y_MIN,
};
use crate::hawk::Hawk;
use crate::player::{Player, PLAYER_FLOOR};
use crate::points::{add_points, lemma_one_catch_counts_once, points_after, TotalPoints};
use crate::random::draw;
use rand::rngs::StdRng;
use vstd::prelude::*;

verus! {

/// Whether `bone` touches one of the first `upto` of `players`.
pub open spec fn caught_among(bone: Bone, players: Seq<Player>, upto: int) -> bool {
    exists|j: int| 0 <= j < upto && bone.touches(&#[trigger] players[j])
}

/// Whether `bone` touches one of `players`.
pub open spec fn caught(bone: Bone, players: Seq<Player>) -> bool {
    caught_among(bone, players, players.len() as int)
}

/// How many of `bones` touch one of `players`.
pub open spec fn count_caught(bones: Seq<Bone>, players: Seq<Player>) -> nat
    decreases bones.len(),
{
    if bones.len() == 0 {
        0
    } else {
        count_caught(bones.drop_last(), players) + if caught(bones.last(), players) {
            1nat
        } else {
            0nat
        }
    }
}

/// What a frame of collecting makes of a bone: a bone that touches one of
/// `players` lies [`BONE_RESPAWN_SHIFT`] further right at a height within
/// the respawn range, with the spin it had; any other bone is as it was.
pub open spec fn bone_collected(before: Bone, after: Bone, players: Seq<Player>) -> bool {
    if caught(before, players) {
        &&& after.x() == before.x() + BONE_RESPAWN_SHIFT
        &&& BONE_RESPAWN_Y_MIN <= after.y() < BONE_RESPAWN_Y_MAX
        &&& after.spin() == before.spin()
    } else {
        after == before
    }
}

/// Whether one of the first `upto` of `hawks` strikes `player`.
pub open spec fn struck_among(player: Player, hawks: Seq<Hawk>, upto: int) -> bool {
    exists|i: int| 0 <= i < upto && (#[trigger] hawks[i]).strikes(&player)
}

/// Whether one of `hawks` strikes `player`.
pub open spec fn struck(player: Player, hawks: Seq<Hawk>) -> bool {
    struck_among(player, hawks, hawks.len() as int)
}

/// What the first `upto` of `hawks` make of a player: a player whom one of
/// them strikes is on the ground; any other player is where it was.
pub open spec fn player_struck_among(
    before: Player,
    after: Player,
    hawks: Seq<Hawk>,
    upto: int,
) -> bool {
    after.y() == if struck_among(before, hawks, upto) {
        PLAYER_FLOOR
    } else {
        before.y()
    }
}

/// What a frame of hawks makes of a player: a player whom one of `hawks`
/// strikes is on the ground; any other player is where it was.
pub open spec fn player_struck(before: Player, after: Player, hawks: Seq<Hawk>) -> bool {
    player_struck_among(before, after, hawks, hawks.len() as int)
}

/// Tests every bone against every player. Each bone that touches a player
/// counts one point and jumps [`BONE_RESPAWN_SHIFT`] to the right, to a
/// newly drawn height; the other bones stay. The score grows by the number
/// of bones that touched a player, and never falls.
pub fn player_collide_with_bone(
    total_points: &mut TotalPoints,
    bones: &mut Vec<Bone>,
    players: &Vec<Player>,
    rng: &mut StdRng,
)
    ensures
        final(bones).len() == old(bones).len(),
        forall|i: int|
            0 <= i < old(bones).len() ==> bone_collected(
                old(bones)[i],
                #[trigger] final(bones)[i],
                players@,
            ) && final(bones)[i].wf(),
        final(total_points).0 == add_points(
            old(total_points).0,
            count_caught(old(bones)@, players@),
        ),
        final(total_points).0 >= old(total_points).0,
{
    let count: usize = bones.len();
    let player_count: usize = players.len();
    let mut i: usize = 0;
    while i < count
        invariant
            i <= count,
            bones.len() == count,
            count == old(bones).len(),
            players.len() == player_count,
            forall|k: int|
                0 <= k < i ==> bone_collected(old(bones)[k], #[trigger] bones[k], players@)
                    && bones[k].wf(),
            forall|k: int| i <= k < count ==> bones[k] == old(bones)[k],
            total_points.0 == add_points(
                old(total_points).0,
                count_caught(old(bones)@.take(i as int), players@),
            ),
        decreases count - i,
    {
        let mut bone: Bone = bones[i];
        let ghost before: Bone = bone;
        let ghost points_before: u32 = total_points.0;
        proof {
            use_type_invariant(&bone);
        }
        let mut j: usize = 0;
        while j < player_count
            invariant
                j <= player_count,
                players.len() == player_count,
                before.wf(),
                bone.wf(),
                forall|m: int| 0 <= m < j ==> (#[trigger] players@[m]).wf(),
                !caught_among(before, players@, j as int) ==> bone == before && total_points.0
                    == points_before,
                caught_among(before, players@, j as int) ==> {
                    &&& bone.x() == before.x() + BONE_RESPAWN_SHIFT
                    &&& BONE_RESPAWN_Y_MIN <= bone.y() < BONE_RESPAWN_Y_MAX
                    &&& bone.spin() == before.spin()
                    &&& total_points.0 == add_points(points_before, 1)
                },
            decreases player_count - j,
        {
            let player: Player = players[j];
            proof {
                use_type_invariant(&player);
                if caught_among(before, players@, j as int) {
                    let earlier: int = choose|m: int|
                        0 <= m < j && before.touches(&#[trigger] players@[m]);
                    let by: Player = players@[earlier];
                    lemma_collected_bone_is_clear(before, bone, by, player);
                }
            }
            if bone.touches(&player) {
                proof {
                    lemma_touching_bone_can_respawn(bone, player);
                }
                let respawn_y: i32 = draw(rng, BONE_RESPAWN_Y_MIN, BONE_RESPAWN_Y_MAX);
                bone.respawn(respawn_y);
                total_points.gain();
            }
            proof {
                assert(players@[j as int] == player);
            }
            j += 1;
        }
        bones.set(i, bone);
        proof {
            let seen: Seq<Bone> = old(bones)@.take(i + 1);
            assert(seen.drop_last() =~= old(bones)@.take(i as int));
            assert(seen.last() == before);
        }
        i += 1;
    }
    proof {
        assert(old(bones)@.take(count as int) =~= old(bones)@);
    }
}

/// Tests every hawk against every player. A player whom a hawk strikes is
/// put on the ground; the other players stay where they are. Hawks and
/// score are left alone.
pub fn player_collide_with_hawk(hawks: &Vec<Hawk>, players: &mut Vec<Player>)
    ensures
        final(players).len() == old(players).len(),
        forall|j: int|
            0 <= j < old(players).len() ==> player_struck(
                old(players)[j],
                #[trigger] final(players)[j],
                hawks@,
            ),
{
    let count: usize = hawks.len();
    let player_count: usize = players.len();
    let mut i: usize = 0;
    while i < count
        invariant
            i <= count,
            hawks.len() == count,
            players.len() == player_count,
            player_count == old(players).len(),
            forall|k: int|
                0 <= k < player_count ==> player_struck_among(
                    old(players)[k],
                    #[trigger] players[k],
                    hawks@,
                    i as int,
                ),
        decreases count - i,
    {
        let hawk: Hawk = hawks[i];
        let mut j: usize = 0;
        while j < player_count
            invariant
                j <= player_count,
                i < count,
                hawks.len() == count,
                hawk == hawks[i as int],
                players.len() == player_count,
                player_count == old(players).len(),
                forall|k: int|
                    0 <= k < j ==> player_struck_among(
                        old(players)[k],
                        #[trigger] players[k],
                        hawks@,
                        i + 1,
                    ),
                forall|k: int|
                    j <= k < player_count ==> player_struck_among(
                        old(players)[k],
                        #[trigger] players[k],
                        hawks@,
                        i as int,
                    ),
            decreases player_count - j,
        {
            let mut player: Player = players[j];
            let ghost first: Player = old(players)[j as int];
            if hawk.strikes(&player) {
                player.ground();
            }
            proof {
                // Whoever struck the player before still counts, and so does
                // this hawk if it strikes the player where it first was.
                if struck_among(first, hawks@, i as int) {
                    let earlier: int = choose|m: int|
                        0 <= m < i && (#[trigger] hawks@[m]).strikes(&first);
                    assert(0 <= earlier < i + 1 && hawks@[earlier].strikes(&first));
                } else if hawks@[i as int].strikes(&first) {
                    assert(0 <= i < i + 1 && hawks@[i as int].strikes(&first));
                }
            }
            players.set(j, player);
            j += 1;
        }
        i += 1;
    }
}

/// A frame with one bone and one player collects that bone if and only if
/// the two touch.
pub proof fn lemma_count_single(bone: Bone, player: Player)
    ensures
        count_caught(seq![bone], seq![player]) == if bone.touches(&player) {
            1nat
        } else {
            0nat
        },
{
    let bones: Seq<Bone> = seq![bone];
    let players: Seq<Player> = seq![player];
    assert(bones.drop_last().len() == 0);
    assert(count_caught(bones.drop_last(), players) == 0);
    assert(bones.last() == bone);
    if bone.touches(&player) {
        assert(0 <= 0 < players.len() && bone.touches(&players[0]));
    }
}

/// The bones collected in each of a run of frames, oldest first, where every
/// frame tests one bone against one player.
pub open spec fn frame_catches(frames: Seq<(Bone, Player)>) -> Seq<nat> {
    Seq::new(frames.len(), |k: int| count_caught(seq![frames[k].0], seq![frames[k].1]))
}

/// A game that starts without points, and in which bone and player touch in
/// frame `n` and in no other frame, shows no point up to that frame and
/// exactly one point after it and after every later frame.
pub proof fn lemma_single_touch_scores_once(frames: Seq<(Bone, Player)>, n: int, shown: int)
    requires
        0 <= n < frames.len(),
        0 <= shown <= frames.len(),
        frames[n].0.touches(&frames[n].1),
        forall|k: int| 0 <= k < frames.len() && k != n ==> !frames[k].0.touches(&frames[k].1),
    ensures
        points_after(0, frame_catches(frames).take(shown)) == if shown <= n {
            0u32
        } else {
            1u32
        },
{
    let catches: Seq<nat> = frame_catches(frames);
    assert forall|k: int| 0 <= k < catches.len() implies catches[k] == if k == n {
        1nat
    } else {
        0nat
    } by {
        lemma_count_single(frames[k].0, frames[k].1);
    }
    lemma_one_catch_counts_once(catches, n, shown);
}

/// A bone that was collected in a frame cannot be collected again right
/// away: wherever the players are, it touches none of them.
pub proof fn lemma_no_second_catch(
    before: Bone,
    after: Bone,
    players: Seq<Player>,
    others: Seq<Player>,
)
    requires
        before.wf(),
        forall|j: int| 0 <= j < players.len() ==> (#[trigger] players[j]).wf(),
        forall|j: int| 0 <= j < others.len() ==> (#[trigger] others[j]).wf(),
        caught(before, players),
        bone_collected(before, after, players),
    ensures
        !caught(after, others),
{
    let by: int = choose|j: int| 0 <= j < players.len() && before.touches(&#[trigger] players[j]);
    assert forall|j: int| 0 <= j < others.len() implies !after.touches(&#[trigger] others[j]) by {
        lemma_collected_bone_is_clear(before, after, players[by], others[j]);
    }
}

} // verus!
