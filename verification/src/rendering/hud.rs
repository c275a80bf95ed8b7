//! The in-game HUD labels. Each label is rebuilt only when the number it
//! shows has changed since the last frame.

use vstd::prelude::*;
use crate::text::{append_decimal, append_signed_decimal, decimal, signed_decimal};

verus! {

pub open spec fn score_label(score: u32) -> Seq<char> {
    "Score: "@ + decimal(score as nat)
}

pub open spec fn coins_label(coins: u32) -> Seq<char> {
    "Coins: "@ + decimal(coins as nat)
}

pub open spec fn stars_label(stars: u32) -> Seq<char> {
    "Stars: "@ + decimal(stars as nat)
}

pub open spec fn distance_label(distance: i32) -> Seq<char> {
    "Distance: "@ + signed_decimal(distance as int) + "m"@
}

pub open spec fn combo_label(combo: u32) -> Seq<char> {
    "Combo: "@ + decimal(combo as nat) + "x"@
}

/// The numbers last shown and their labels.
pub struct HudView {
    pub last_score: u32,
    pub last_coins: u32,
    pub last_stars: u32,
    pub last_distance: i32,
    pub last_combo: u32,
    pub score_text: Seq<char>,
    pub coins_text: Seq<char>,
    pub stars_text: Seq<char>,
    pub distance_text: Seq<char>,
    pub combo_text: Seq<char>,
}

/// Every label shows the number last seen.
pub open spec fn hud_in_step(v: HudView) -> bool {
    &&& v.score_text == score_label(v.last_score)
    &&& v.coins_text == coins_label(v.last_coins)
    &&& v.stars_text == stars_label(v.last_stars)
    &&& v.distance_text == distance_label(v.last_distance)
    &&& v.combo_text == combo_label(v.last_combo)
}

/// The labels after a frame showing `score`, `coins`, `distance` and `combo`:
/// a label is rebuilt when its number differs from the last one shown.
pub open spec fn hud_after(v: HudView, score: u32, coins: u32, distance: i32, combo: u32) -> HudView {
    HudView {
        last_score: score,
        last_coins: coins,
        last_distance: distance,
        last_combo: combo,
        last_stars: v.last_stars,
        stars_text: v.stars_text,
        score_text: if score != v.last_score {
            score_label(score)
        } else {
            v.score_text
        },
        coins_text: if coins != v.last_coins {
            coins_label(coins)
        } else {
            v.coins_text
        },
        distance_text: if distance != v.last_distance {
            distance_label(distance)
        } else {
            v.distance_text
        },
        combo_text: if combo != v.last_combo {
            combo_label(combo)
        } else {
            v.combo_text
        },
    }
}

/// The labels after a frame showing `stars` stars: the stars label is rebuilt
/// when the number differs from the last one shown.
pub open spec fn hud_after_stars(v: HudView, stars: u32) -> HudView {
    HudView {
        last_stars: stars,
        stars_text: if stars != v.last_stars {
            stars_label(stars)
        } else {
            v.stars_text
        },
        ..v
    }
}

pub struct HudCache {
    last_score: u32,
    last_coins: u32,
    last_stars: u32,
    stars_text: String,
    last_distance: i32,
    last_combo: u32,
    score_text: String,
    coins_text: String,
    distance_text: String,
    combo_text: String,
}

impl View for HudCache {
    type V = HudView;

    closed spec fn view(&self) -> HudView {
        HudView {
            last_score: self.last_score,
            last_coins: self.last_coins,
            last_stars: self.last_stars,
            stars_text: self.stars_text@,
            last_distance: self.last_distance,
            last_combo: self.last_combo,
            score_text: self.score_text@,
            coins_text: self.coins_text@,
            distance_text: self.distance_text@,
            combo_text: self.combo_text@,
        }
    }
}

impl HudCache {
    /// Empty labels, with numbers no frame is expected to show so that the
    /// first frame builds every label.
    pub fn new() -> (h: Self)
        ensures
            h@ == (HudView {
                last_score: u32::MAX,
                last_coins: u32::MAX,
                last_stars: u32::MAX,
                stars_text: Seq::empty(),
                last_distance: i32::MIN,
                last_combo: u32::MAX,
                score_text: Seq::empty(),
                coins_text: Seq::empty(),
                distance_text: Seq::empty(),
                combo_text: Seq::empty(),
            }),
    {
        HudCache {
            last_score: u32::MAX,
            last_coins: u32::MAX,
            last_stars: u32::MAX,
            stars_text: String::new(),
            last_distance: i32::MIN,
            last_combo: u32::MAX,
            score_text: String::new(),
            coins_text: String::new(),
            distance_text: String::new(),
            combo_text: String::new(),
        }
    }

    /// Brings the labels up to date with this frame's numbers.
    pub fn update(&mut self, score: u32, coins: u32, distance: i32, combo: u32)
        ensures
            final(self)@ == hud_after(old(self)@, score, coins, distance, combo),
    {
        proof {
            reveal_strlit("Score: ");
            reveal_strlit("Coins: ");
            reveal_strlit("Distance: ");
            reveal_strlit("m");
            reveal_strlit("Combo: ");
            reveal_strlit("x");
        }
        if score != self.last_score {
            self.last_score = score;
            let mut t = String::new();
            t.append("Score: ");
            append_decimal(&mut t, score);
            self.score_text = t;
        }
        if coins != self.last_coins {
            self.last_coins = coins;
            let mut t = String::new();
            t.append("Coins: ");
            append_decimal(&mut t, coins);
            self.coins_text = t;
        }
        if distance != self.last_distance {
            self.last_distance = distance;
            let mut t = String::new();
            t.append("Distance: ");
            append_signed_decimal(&mut t, distance);
            t.append("m");
            self.distance_text = t;
        }
        if combo != self.last_combo {
            self.last_combo = combo;
            let mut t = String::new();
            t.append("Combo: ");
            append_decimal(&mut t, combo);
            t.append("x");
            self.combo_text = t;
        }
        assert(self@ =~= hud_after(old(self)@, score, coins, distance, combo));
    }

    /// Brings the stars label up to date with this frame's star count.
    pub fn update_stars(&mut self, stars: u32)
        ensures
            final(self)@ == hud_after_stars(old(self)@, stars),
    {
        proof {
            reveal_strlit("Stars: ");
        }
        if stars != self.last_stars {
            self.last_stars = stars;
            let mut t = String::new();
            t.append("Stars: ");
            append_decimal(&mut t, stars);
            self.stars_text = t;
        }
        assert(self@ =~= hud_after_stars(old(self)@, stars));
    }

    pub fn stars_text(&self) -> (t: &str)
        ensures
            t@ == self@.stars_text,
    {
        self.stars_text.as_str()
    }

    pub fn score_text(&self) -> (t: &str)
        ensures
            t@ == self@.score_text,
    {
        self.score_text.as_str()
    }

    pub fn coins_text(&self) -> (t: &str)
        ensures
            t@ == self@.coins_text,
    {
        self.coins_text.as_str()
    }

    pub fn distance_text(&self) -> (t: &str)
        ensures
            t@ == self@.distance_text,
    {
        self.distance_text.as_str()
    }

    pub fn combo_text(&self) -> (t: &str)
        ensures
            t@ == self@.combo_text,
    {
        self.combo_text.as_str()
    }
}

// ── Laws ────────────────────────────────────────────────────────────────

/// Rebuilding only what changed loses nothing: once every label shows its
/// number, each update leaves every label showing the new number.
pub proof fn lemma_hud_stays_in_step(v: HudView, score: u32, coins: u32, distance: i32, combo: u32)
    requires
        hud_in_step(v),
    ensures
        hud_in_step(hud_after(v, score, coins, distance, combo)),
{
}

/// The same holds of the stars label.
pub proof fn lemma_hud_stars_stay_in_step(v: HudView, stars: u32)
    requires
        hud_in_step(v),
    ensures
        hud_in_step(hud_after_stars(v, stars)),
{
}

/// The first frame builds every label unless a number equals the one the
/// cache starts from.
pub proof fn lemma_first_frame_builds_labels(
    v: HudView,
    score: u32,
    coins: u32,
    stars: u32,
    distance: i32,
    combo: u32,
)
    requires
        score != v.last_score,
        coins != v.last_coins,
        stars != v.last_stars,
        distance != v.last_distance,
        combo != v.last_combo,
    ensures
        hud_in_step(hud_after_stars(hud_after(v, score, coins, distance, combo), stars)),
{
}

} // verus!
