//! The score: how many bones the player has collected, and the text that
//! shows it.

use vstd::prelude::*;
use vstd::string::StringExecFns;

verus! {

/// The number of bones collected since the game began. It only ever grows.
#[derive(Clone, Copy, Debug, PartialEq, Eq, Structural)]
pub struct TotalPoints(pub u32);

/// The score `points` after `gained` more bones. The counter stops at the
/// largest number it can hold.
pub open spec fn add_points(points: u32, gained: nat) -> u32 {
    if points + gained > u32::MAX {
        u32::MAX
    } else {
        (points + gained) as u32
    }
}

/// The score after a run of frames, oldest first, where `catches[k]` bones
/// were collected in frame `k`.
pub open spec fn points_after(points: u32, catches: Seq<nat>) -> u32
    decreases catches.len(),
{
    if catches.len() == 0 {
        points
    } else {
        add_points(points_after(points, catches.drop_last()), catches.last())
    }
}

/// The character that writes the digit `d`.
pub open spec fn digit(d: nat) -> char {
    if d == 0 {
        '0'
    } else if d == 1 {
        '1'
    } else if d == 2 {
        '2'
    } else if d == 3 {
        '3'
    } else if d == 4 {
        '4'
    } else if d == 5 {
        '5'
    } else if d == 6 {
        '6'
    } else if d == 7 {
        '7'
    } else if d == 8 {
        '8'
    } else {
        '9'
    }
}

/// The number `n` written in base ten, without leading zeros.
pub open spec fn decimal(n: nat) -> Seq<char>
    decreases n,
{
    if n < 10 {
        seq![digit(n)]
    } else {
        decimal(n / 10).push(digit(n % 10))
    }
}

/// The text of the score label for the score `points`: the words
/// `Bones: ` and the score in base ten.
pub open spec fn label_text(points: u32) -> Seq<char> {
    seq!['B', 'o', 'n', 'e', 's', ':', ' '] + decimal(points as nat)
}

impl TotalPoints {
    /// Counts one more bone.
    pub fn gain(&mut self)
        ensures
            final(self).0 == add_points(old(self).0, 1),
    {
        self.0 = self.0.saturating_add(1);
    }
}

/// The score as the game starts: no bone yet.
pub fn setup_game() -> (total_points: TotalPoints)
    ensures
        total_points.0 == 0,
{
    TotalPoints(0)
}

/// The digit `d` as text.
fn digit_str(d: u32) -> (text: &'static str)
    requires
        d < 10,
    ensures
        text@ == seq![digit(d as nat)],
{
    proof {
        reveal_strlit("0");
        reveal_strlit("1");
        reveal_strlit("2");
        reveal_strlit("3");
        reveal_strlit("4");
        reveal_strlit("5");
        reveal_strlit("6");
        reveal_strlit("7");
        reveal_strlit("8");
        reveal_strlit("9");
    }
    let text: &'static str = match d {
        0 => "0",
        1 => "1",
        2 => "2",
        3 => "3",
        4 => "4",
        5 => "5",
        6 => "6",
        7 => "7",
        8 => "8",
        _ => "9",
    };
    assert(text@ =~= seq![digit(d as nat)]);
    text
}

/// Writes `n` in base ten behind what `text` holds.
fn push_decimal(text: &mut String, n: u32)
    ensures
        final(text)@ == old(text)@ + decimal(n as nat),
    decreases n,
{
    if n >= 10 {
        push_decimal(text, n / 10);
    }
    let last: &'static str = digit_str(n % 10);
    text.append(last);
    assert(text@ =~= old(text)@ + decimal(n as nat));
}

/// Rewrites the score label from the score: `Bones: ` and the number.
/// Whatever the label held before is gone.
pub fn update_points(total_points: &TotalPoints, label: &mut String)
    ensures
        final(label)@ == label_text(total_points.0),
{
    proof {
        reveal_strlit("Bones: ");
    }
    let mut text: String = String::from_str("Bones: ");
    assert(text@ =~= seq!['B', 'o', 'n', 'e', 's', ':', ' ']);
    push_decimal(&mut text, total_points.0);
    *label = text;
}

/// The text of the score label as the game starts: it shows no bone.
pub fn spawn_points() -> (label: String)
    ensures
        label@ == label_text(0),
{
    let total_points: TotalPoints = setup_game();
    let mut label: String = String::new();
    update_points(&total_points, &mut label);
    label
}

/// The score never falls: after any run of frames it is at least what it
/// was before.
pub proof fn lemma_points_never_fall(points: u32, catches: Seq<nat>)
    ensures
        points_after(points, catches) >= points,
    decreases catches.len(),
{
    if catches.len() > 0 {
        lemma_points_never_fall(points, catches.drop_last());
    }
}

/// A game that starts without points and in which a single bone is
/// collected, in frame `n`, shows no point up to that frame and exactly one
/// point after it and after every later frame.
pub proof fn lemma_one_catch_counts_once(catches: Seq<nat>, n: int, frames: int)
    requires
        0 <= n < catches.len(),
        0 <= frames <= catches.len(),
        catches[n] == 1,
        forall|k: int| 0 <= k < catches.len() && k != n ==> catches[k] == 0,
    ensures
        points_after(0, catches.take(frames)) == if frames <= n {
            0u32
        } else {
            1u32
        },
    decreases frames,
{
    if frames > 0 {
        lemma_one_catch_counts_once(catches, n, frames - 1);
        assert(catches.take(frames).drop_last() =~= catches.take(frames - 1));
    }
}

} // verus!
