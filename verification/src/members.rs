use vstd::prelude::*;

use crate::browser::MemberItem;

verus! {

pub struct MemberModel {
    pub index: u32,
    pub name: Seq<char>,
    pub status: Seq<char>,
}

impl View for MemberItem {
    type V = MemberModel;

    open spec fn view(&self) -> MemberModel {
        MemberModel { index: self.index, name: self.name@, status: self.status@ }
    }
}

pub open spec fn members_view(v: Seq<MemberItem>) -> Seq<MemberModel> {
    v.map_values(|m: MemberItem| m@)
}

/// The answer of `members`: the members that the page listed (with
/// `MEMBERS_COLLECT`), or one row saying that none is visible.
pub open spec fn members_answer(found: Seq<MemberModel>) -> Seq<MemberModel> {
    if found.len() == 0 {
        seq![MemberModel { index: 0, name: "No members visible"@, status: "Toggle member list first"@ }]
    } else {
        found
    }
}

/// The answer of `members`, from the members that the page listed.
pub fn execute(found: Vec<MemberItem>) -> (res: Vec<MemberItem>)
    ensures
        members_view(res@) == members_answer(members_view(found@)),
        found@.len() > 0 ==> res@ == found@,
{
    if found.len() == 0 {
        let res = vec![MemberItem {
            index: 0,
            name: "No members visible".to_string(),
            status: "Toggle member list first".to_string(),
        }];
        assert(members_view(res@) =~= members_answer(members_view(found@)));
        res
    } else {
        found
    }
}

} // verus!
