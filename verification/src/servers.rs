use vstd::prelude::*;

use crate::browser::ServerItem;

verus! {

pub struct ServerModel {
    pub index: u32,
    pub server: Seq<char>,
}

impl View for ServerItem {
    type V = ServerModel;

    open spec fn view(&self) -> ServerModel {
        ServerModel { index: self.index, server: self.server@ }
    }
}

pub open spec fn servers_view(v: Seq<ServerItem>) -> Seq<ServerModel> {
    v.map_values(|s: ServerItem| s@)
}

/// The answer of `servers`: the servers that the page listed (with
/// `SERVERS_COLLECT`), or one row saying that there is none.
pub open spec fn servers_answer(found: Seq<ServerModel>) -> Seq<ServerModel> {
    if found.len() == 0 {
        seq![ServerModel { index: 0, server: "No servers found"@ }]
    } else {
        found
    }
}

/// The answer of `servers`, from the servers that the page listed.
pub fn execute(found: Vec<ServerItem>) -> (res: Vec<ServerItem>)
    ensures
        servers_view(res@) == servers_answer(servers_view(found@)),
        found@.len() > 0 ==> res@ == found@,
{
    if found.len() == 0 {
        let res = vec![ServerItem { index: 0, server: "No servers found".to_string() }];
        assert(servers_view(res@) =~= servers_answer(servers_view(found@)));
        res
    } else {
        found
    }
}

} // verus!
