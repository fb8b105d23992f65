use crate::text::lowercased;
use crate::text::str_eq;
use crate::text::to_lowercase;
use vstd::prelude::*;

verus! {

/// The kinds of activity that an item can record. Each has a label and the
/// index by which the board's status column knows it.
#[derive(Debug, Clone, Copy, PartialEq, Eq, Structural)]
pub enum ActivityCode {
    Vacation,
    Billable,
    Holding,
    Education,
    WorkReduction,
    Tbd,
    Holiday,
    Blank,
    Illness,
}

impl ActivityCode {
    /// The index of the activity in the status column.
    pub open spec fn spec_index(self) -> int {
        match self {
            ActivityCode::Vacation => 0,
            ActivityCode::Billable => 1,
            ActivityCode::Holding => 2,
            ActivityCode::Education => 3,
            ActivityCode::WorkReduction => 4,
            ActivityCode::Tbd => 5,
            ActivityCode::Holiday => 6,
            ActivityCode::Blank => 7,
            ActivityCode::Illness => 8,
        }
    }

    /// The label of the activity, in lower case; `Blank` has the empty label.
    pub open spec fn spec_label(self) -> Seq<char> {
        match self {
            ActivityCode::Vacation => "vacation"@,
            ActivityCode::Billable => "billable"@,
            ActivityCode::Holding => "holding"@,
            ActivityCode::Education => "education"@,
            ActivityCode::WorkReduction => "work_reduction"@,
            ActivityCode::Tbd => "tbd"@,
            ActivityCode::Holiday => "holiday"@,
            ActivityCode::Blank => ""@,
            ActivityCode::Illness => "illness"@,
        }
    }

    /// The activity whose label is exactly `label`.
    pub open spec fn spec_from_label(label: Seq<char>) -> Option<ActivityCode> {
        if label == "vacation"@ {
            Some(ActivityCode::Vacation)
        } else if label == "billable"@ {
            Some(ActivityCode::Billable)
        } else if label == "holding"@ {
            Some(ActivityCode::Holding)
        } else if label == "education"@ {
            Some(ActivityCode::Education)
        } else if label == "work_reduction"@ {
            Some(ActivityCode::WorkReduction)
        } else if label == "tbd"@ {
            Some(ActivityCode::Tbd)
        } else if label == "holiday"@ {
            Some(ActivityCode::Holiday)
        } else if label == ""@ {
            Some(ActivityCode::Blank)
        } else if label == "illness"@ {
            Some(ActivityCode::Illness)
        } else {
            None
        }
    }

    /// The activity with the index `index`.
    pub open spec fn spec_from_index(index: int) -> Option<ActivityCode> {
        if index == 0 {
            Some(ActivityCode::Vacation)
        } else if index == 1 {
            Some(ActivityCode::Billable)
        } else if index == 2 {
            Some(ActivityCode::Holding)
        } else if index == 3 {
            Some(ActivityCode::Education)
        } else if index == 4 {
            Some(ActivityCode::WorkReduction)
        } else if index == 5 {
            Some(ActivityCode::Tbd)
        } else if index == 6 {
            Some(ActivityCode::Holiday)
        } else if index == 7 {
            Some(ActivityCode::Blank)
        } else if index == 8 {
            Some(ActivityCode::Illness)
        } else {
            None
        }
    }

    /// The index of the activity in the status column.
    pub fn index(self) -> (res: u8)
        ensures
            res == self.spec_index(),
    {
        match self {
            ActivityCode::Vacation => 0,
            ActivityCode::Billable => 1,
            ActivityCode::Holding => 2,
            ActivityCode::Education => 3,
            ActivityCode::WorkReduction => 4,
            ActivityCode::Tbd => 5,
            ActivityCode::Holiday => 6,
            ActivityCode::Blank => 7,
            ActivityCode::Illness => 8,
        }
    }

    /// The label of the activity.
    pub fn label(self) -> (res: &'static str)
        ensures
            res@ == self.spec_label(),
    {
        match self {
            ActivityCode::Vacation => "vacation",
            ActivityCode::Billable => "billable",
            ActivityCode::Holding => "holding",
            ActivityCode::Education => "education",
            ActivityCode::WorkReduction => "work_reduction",
            ActivityCode::Tbd => "tbd",
            ActivityCode::Holiday => "holiday",
            ActivityCode::Blank => "",
            ActivityCode::Illness => "illness",
        }
    }

    /// The activity with the index `index`, if there is one.
    pub fn from_index(index: u8) -> (res: Option<ActivityCode>)
        ensures
            res == Self::spec_from_index(index as int),
    {
        match index {
            0 => Some(ActivityCode::Vacation),
            1 => Some(ActivityCode::Billable),
            2 => Some(ActivityCode::Holding),
            3 => Some(ActivityCode::Education),
            4 => Some(ActivityCode::WorkReduction),
            5 => Some(ActivityCode::Tbd),
            6 => Some(ActivityCode::Holiday),
            7 => Some(ActivityCode::Blank),
            8 => Some(ActivityCode::Illness),
            _ => None,
        }
    }

    /// The activity whose label is exactly `label`, if there is one. The
    /// label is taken as it stands: an upper-case letter matches nothing.
    pub fn from_label(label: &str) -> (res: Option<ActivityCode>)
        ensures
            res == Self::spec_from_label(label@),
    {
        if str_eq(label, "vacation") {
            Some(ActivityCode::Vacation)
        } else if str_eq(label, "billable") {
            Some(ActivityCode::Billable)
        } else if str_eq(label, "holding") {
            Some(ActivityCode::Holding)
        } else if str_eq(label, "education") {
            Some(ActivityCode::Education)
        } else if str_eq(label, "work_reduction") {
            Some(ActivityCode::WorkReduction)
        } else if str_eq(label, "tbd") {
            Some(ActivityCode::Tbd)
        } else if str_eq(label, "holiday") {
            Some(ActivityCode::Holiday)
        } else if str_eq(label, "") {
            Some(ActivityCode::Blank)
        } else if str_eq(label, "illness") {
            Some(ActivityCode::Illness)
        } else {
            None
        }
    }

    /// The activity that `label` names without regard to case: the label is
    /// put in lower case and then looked up.
    pub fn parse(label: &str) -> (res: Option<ActivityCode>)
        ensures
            res == Self::spec_from_label(lowercased(label@)),
    {
        let lowered = to_lowercase(label);
        Self::from_label(lowered.as_str())
    }
}

/// An activity is found again by its index.
pub proof fn lemma_index_round_trip(code: ActivityCode)
    ensures
        ActivityCode::spec_from_index(code.spec_index()) == Some(code),
{
}

/// Every index that names an activity is the index of that activity, and
/// only the indices from 0 to 8 name one.
pub proof fn lemma_from_index_is_index(index: int)
    ensures
        match ActivityCode::spec_from_index(index) {
            Some(code) => code.spec_index() == index,
            None => index < 0 || index > 8,
        },
{
}

/// An activity is found again by its label: no two activities share one.
pub proof fn lemma_label_round_trip(code: ActivityCode)
    ensures
        ActivityCode::spec_from_label(code.spec_label()) == Some(code),
{
    reveal_strlit("vacation");
    reveal_strlit("billable");
    reveal_strlit("holding");
    reveal_strlit("education");
    reveal_strlit("work_reduction");
    reveal_strlit("tbd");
    reveal_strlit("holiday");
    reveal_strlit("");
    reveal_strlit("illness");
    assert("vacation"@[0] == 'v' && "billable"@[0] == 'b' && "holding"@[0] == 'h');
    assert("education"@[0] == 'e' && "work_reduction"@[0] == 'w' && "tbd"@[0] == 't');
    assert("holiday"@[0] == 'h' && "illness"@[0] == 'i');
    assert("holding"@[3] == 'd' && "holiday"@[3] == 'i');
    assert(""@.len() == 0);
}

/// Every label that names an activity is the label of that activity.
pub proof fn lemma_from_label_is_label(label: Seq<char>)
    ensures
        match ActivityCode::spec_from_label(label) {
            Some(code) => code.spec_label() == label,
            None => true,
        },
{
}

} // verus!
