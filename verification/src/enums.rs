//! The six viewing sides and five projection styles.

use vstd::prelude::*;
use vstd::view::View as _;

verus! {

/// A side of the model from which a render can be requested.
#[derive(Clone, Copy, Debug, PartialEq, Eq, Structural)]
pub enum Side {
    Top,
    Front,
    Left,
    Right,
    Back,
    Bottom,
}

impl Side {
    /// The canonical lowercase name of the side, used in output file names.
    pub open spec fn spec_str(self) -> Seq<char> {
        match self {
            Side::Top => "top"@,
            Side::Front => "front"@,
            Side::Left => "left"@,
            Side::Right => "right"@,
            Side::Back => "back"@,
            Side::Bottom => "bottom"@,
        }
    }

    pub fn to_str(&self) -> (r: &'static str)
        ensures
            r@ == self.spec_str(),
    {
        match *self {
            Side::Top => "top",
            Side::Front => "front",
            Side::Left => "left",
            Side::Right => "right",
            Side::Back => "back",
            Side::Bottom => "bottom",
        }
    }

    /// The side a selection token names, if any.
    pub open spec fn spec_from_str(s: Seq<char>) -> Option<Side> {
        if s == "top"@ {
            Some(Side::Top)
        } else if s == "front"@ {
            Some(Side::Front)
        } else if s == "left"@ {
            Some(Side::Left)
        } else if s == "right"@ {
            Some(Side::Right)
        } else if s == "back"@ {
            Some(Side::Back)
        } else if s == "bottom"@ {
            Some(Side::Bottom)
        } else {
            None
        }
    }

    /// Parses a side selection token; an unknown token comes back as the
    /// error, so the caller can name it in its report.
    pub fn from_str(string: &str) -> (r: Result<Side, String>)
        ensures
            match r {
                Ok(side) => Side::spec_from_str(string@) == Some(side),
                Err(e) => Side::spec_from_str(string@) is None && e@ == string@,
            },
    {
        let s: String = string.to_owned();
        if s == "top".to_owned() {
            Ok(Side::Top)
        } else if s == "front".to_owned() {
            Ok(Side::Front)
        } else if s == "left".to_owned() {
            Ok(Side::Left)
        } else if s == "right".to_owned() {
            Ok(Side::Right)
        } else if s == "back".to_owned() {
            Ok(Side::Back)
        } else if s == "bottom".to_owned() {
            Ok(Side::Bottom)
        } else {
            Err(s)
        }
    }

    /// Every side, in canonical order.
    pub fn all() -> (r: Vec<Side>)
        ensures
            r@ =~= seq![
                Side::Top,
                Side::Front,
                Side::Left,
                Side::Right,
                Side::Back,
                Side::Bottom,
            ],
    {
        vec![Side::Top, Side::Front, Side::Left, Side::Right, Side::Back, Side::Bottom]
    }
}

/// A projection style, ordered by increasing obliqueness.
#[derive(Clone, Copy, Debug, PartialEq, Eq, Structural)]
pub enum View {
    Face,
    FourtyFive,
    FourtyFiveIso,
    TwentyTwoPointFive,
    TwentyTwoPointFiveIso,
}

impl View {
    /// The canonical name of the view, used in output file names.
    pub open spec fn spec_str(self) -> Seq<char> {
        match self {
            View::Face => "face"@,
            View::FourtyFive => "45"@,
            View::FourtyFiveIso => "45_iso"@,
            View::TwentyTwoPointFive => "22.5"@,
            View::TwentyTwoPointFiveIso => "22.5_iso"@,
        }
    }

    pub fn to_str(&self) -> (r: &'static str)
        ensures
            r@ == self.spec_str(),
    {
        match *self {
            View::Face => "face",
            View::FourtyFive => "45",
            View::FourtyFiveIso => "45_iso",
            View::TwentyTwoPointFive => "22.5",
            View::TwentyTwoPointFiveIso => "22.5_iso",
        }
    }

    /// The view a selection token names, if any.
    pub open spec fn spec_from_str(s: Seq<char>) -> Option<View> {
        if s == "face"@ {
            Some(View::Face)
        } else if s == "45"@ {
            Some(View::FourtyFive)
        } else if s == "45 iso"@ {
            Some(View::FourtyFiveIso)
        } else if s == "22.5"@ {
            Some(View::TwentyTwoPointFive)
        } else if s == "22.5 iso"@ {
            Some(View::TwentyTwoPointFiveIso)
        } else {
            None
        }
    }

    /// Parses a view selection token; an unknown token comes back as the
    /// error, so the caller can name it in its report.
    pub fn from_str(string: &str) -> (r: Result<View, String>)
        ensures
            match r {
                Ok(view) => View::spec_from_str(string@) == Some(view),
                Err(e) => View::spec_from_str(string@) is None && e@ == string@,
            },
    {
        let s: String = string.to_owned();
        if s == "face".to_owned() {
            Ok(View::Face)
        } else if s == "45".to_owned() {
            Ok(View::FourtyFive)
        } else if s == "45 iso".to_owned() {
            Ok(View::FourtyFiveIso)
        } else if s == "22.5".to_owned() {
            Ok(View::TwentyTwoPointFive)
        } else if s == "22.5 iso".to_owned() {
            Ok(View::TwentyTwoPointFiveIso)
        } else {
            Err(s)
        }
    }

    /// Every view, in canonical order.
    pub fn all() -> (r: Vec<View>)
        ensures
            r@ =~= seq![
                View::Face,
                View::FourtyFive,
                View::FourtyFiveIso,
                View::TwentyTwoPointFive,
                View::TwentyTwoPointFiveIso,
            ],
    {
        vec![
            View::Face,
            View::FourtyFive,
            View::FourtyFiveIso,
            View::TwentyTwoPointFive,
            View::TwentyTwoPointFiveIso,
        ]
    }
}

} // verus!
