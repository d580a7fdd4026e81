//! The three ordered levels of market impact.

use vstd::prelude::*;
use core::cmp::Ordering;
use vstd::std_specs::cmp::PartialOrdSpec;
use crate::text::{contains, occurs_in};

verus! {

/// Impact level of an economic event on the market: low (shown yellow),
/// medium (orange) or high (red).
#[derive(Debug, Clone, Copy, PartialEq, Eq, Structural, Ord, Hash)]
pub enum Impact {
    /// Minor market movement expected.
    Low,
    /// Moderate market movement possible.
    Medium,
    /// Significant market movement likely.
    High,
}

/// The level that a marker class names, if it names one: the yellow family
/// is searched first, then the orange one, then the red one.
pub open spec fn classify(class: Seq<char>) -> Option<Impact> {
    if occurs_in(class, "yel"@) || occurs_in(class, "yellow"@) {
        Some(Impact::Low)
    } else if occurs_in(class, "ora"@) || occurs_in(class, "orange"@) {
        Some(Impact::Medium)
    } else if occurs_in(class, "red"@) {
        Some(Impact::High)
    } else {
        None
    }
}

impl PartialOrd for Impact {
    fn partial_cmp(&self, other: &Impact) -> (r: Option<Ordering>) {
        let a = self.stars();
        let b = other.stars();
        if a < b {
            Some(Ordering::Less)
        } else if a > b {
            Some(Ordering::Greater)
        } else {
            Some(Ordering::Equal)
        }
    }
}

impl vstd::std_specs::cmp::PartialOrdSpecImpl for Impact {
    open spec fn obeys_partial_cmp_spec() -> bool {
        true
    }

    open spec fn partial_cmp_spec(&self, other: &Impact) -> Option<Ordering> {
        if self.rank() < other.rank() {
            Some(Ordering::Less)
        } else if self.rank() > other.rank() {
            Some(Ordering::Greater)
        } else {
            Some(Ordering::Equal)
        }
    }
}

/// The comparison operators order the levels by rank: of any two levels
/// exactly one of below, equal and above holds, and a level is at least
/// another exactly when it is not below it.
pub proof fn lemma_comparison_follows_rank(a: Impact, b: Impact)
    ensures
        a.partial_cmp_spec(&b) == Some(Ordering::Less) <==> a.rank() < b.rank(),
        a.partial_cmp_spec(&b) == Some(Ordering::Equal) <==> a == b,
        a.partial_cmp_spec(&b) == Some(Ordering::Greater) <==> a.rank() > b.rank(),
        a.partial_cmp_spec(&b) is Some,
        a.at_least(b) <==> a.partial_cmp_spec(&b) != Some(Ordering::Less),
        Impact::Low.partial_cmp_spec(&Impact::Medium) == Some(Ordering::Less),
        Impact::Medium.partial_cmp_spec(&Impact::High) == Some(Ordering::Less),
{
}

impl Impact {
    /// Position in the order Low < Medium < High.
    pub open spec fn rank(self) -> int {
        match self {
            Impact::Low => 0,
            Impact::Medium => 1,
            Impact::High => 2,
        }
    }

    /// `self` is at least as severe as `other`.
    pub open spec fn at_least(self, other: Impact) -> bool {
        self.rank() >= other.rank()
    }

    /// Star rating, one to three.
    pub fn stars(self) -> (r: u8)
        ensures
            r == self.rank() + 1,
    {
        match self {
            Impact::Low => 1,
            Impact::Medium => 2,
            Impact::High => 3,
        }
    }

    /// The level that a star rating stands for.
    pub open spec fn of_stars(stars: u8) -> Option<Impact> {
        if stars == 1 {
            Some(Impact::Low)
        } else if stars == 2 {
            Some(Impact::Medium)
        } else if stars == 3 {
            Some(Impact::High)
        } else {
            None
        }
    }

    /// The level with the given star rating; none outside one to three.
    pub fn from_stars(stars: u8) -> (r: Option<Impact>)
        ensures
            r == Impact::of_stars(stars),
    {
        match stars {
            1 => Some(Impact::Low),
            2 => Some(Impact::Medium),
            3 => Some(Impact::High),
            _ => None,
        }
    }

    /// Classifies a marker class such as `icon--ff-impact-red`.
    pub fn from_ff_class(class: &str) -> (r: Option<Impact>)
        ensures
            r == classify(class@),
    {
        if contains(class, "yel") || contains(class, "yellow") {
            Some(Impact::Low)
        } else if contains(class, "ora") || contains(class, "orange") {
            Some(Impact::Medium)
        } else if contains(class, "red") {
            Some(Impact::High)
        } else {
            None
        }
    }

    /// Whether `self` is at least as severe as `threshold`.
    pub fn meets(self, threshold: Impact) -> (r: bool)
        ensures
            r == self.at_least(threshold),
    {
        self >= threshold
    }

    /// The level's name: `Low`, `Medium` or `High`.
    pub fn name(self) -> (r: &'static str)
        ensures
            r@ == self.name_text(),
    {
        match self {
            Impact::Low => "Low",
            Impact::Medium => "Medium",
            Impact::High => "High",
        }
    }

    /// The characters of the level's name.
    pub open spec fn name_text(self) -> Seq<char> {
        match self {
            Impact::Low => "Low"@,
            Impact::Medium => "Medium"@,
            Impact::High => "High"@,
        }
    }

    /// The level's name in small letters, as it is written in output.
    pub fn lowercase_name(self) -> (r: &'static str)
        ensures
            r@ == self.lowercase_name_text(),
    {
        match self {
            Impact::Low => "low",
            Impact::Medium => "medium",
            Impact::High => "high",
        }
    }

    /// The characters of the level's name in small letters.
    pub open spec fn lowercase_name_text(self) -> Seq<char> {
        match self {
            Impact::Low => "low"@,
            Impact::Medium => "medium"@,
            Impact::High => "high"@,
        }
    }
}

} // verus!
