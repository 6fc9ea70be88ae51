use vstd::prelude::*;

verus! {

/// A weather warning; lists of warnings are compared as a whole.
#[derive(Clone, Debug)]
pub struct Warning {
    pub area_id: String,
    pub expiry_time: String,
    pub id: String,
    pub issue_time: String,
    pub phase: String,
    pub short_title: String,
    pub state: String,
    pub title: String,
    pub warning_type: String,
    pub warning_group_type: String,
}

impl View for Warning {
    type V = Seq<Seq<char>>;

    open spec fn view(&self) -> Seq<Seq<char>> {
        seq![
            self.area_id@,
            self.expiry_time@,
            self.id@,
            self.issue_time@,
            self.phase@,
            self.short_title@,
            self.state@,
            self.title@,
            self.warning_type@,
            self.warning_group_type@,
        ]
    }
}

impl Warning {
    /// Whether two warnings hold the same text in every field.
    pub fn same(&self, other: &Warning) -> (r: bool)
        ensures
            r == (self@ == other@),
    {
        let r = self.area_id == other.area_id && self.expiry_time == other.expiry_time && self.id
            == other.id && self.issue_time == other.issue_time && self.phase == other.phase
            && self.short_title == other.short_title && self.state == other.state && self.title
            == other.title && self.warning_type == other.warning_type && self.warning_group_type
            == other.warning_group_type;
        proof {
            if !r {
                if self@ == other@ {
                    assert(self@[0] == other@[0]);
                    assert(self@[1] == other@[1]);
                    assert(self@[2] == other@[2]);
                    assert(self@[3] == other@[3]);
                    assert(self@[4] == other@[4]);
                    assert(self@[5] == other@[5]);
                    assert(self@[6] == other@[6]);
                    assert(self@[7] == other@[7]);
                    assert(self@[8] == other@[8]);
                    assert(self@[9] == other@[9]);
                }
            } else {
                assert(self@ =~= other@);
            }
        }
        r
    }
}

#[derive(Clone, Debug)]
pub struct WarningMetadata {
    pub copyright: String,
    pub response_timestamp: String,
}

#[derive(Clone, Debug)]
pub struct WarningResponse {
    pub data: Vec<Warning>,
    pub metadata: WarningMetadata,
}

/// The text of a list of warnings.
pub open spec fn warnings_view(ws: Seq<Warning>) -> Seq<Seq<Seq<char>>> {
    ws.map_values(|w: Warning| w@)
}

/// Whether two lists of warnings hold the same warnings in the same order.
pub fn same_warnings(a: &Vec<Warning>, b: &Vec<Warning>) -> (r: bool)
    ensures
        r == (warnings_view(a@) == warnings_view(b@)),
{
    if a.len() != b.len() {
        assert(warnings_view(a@).len() != warnings_view(b@).len());
        return false;
    }
    let mut i: usize = 0;
    while i < a.len()
        invariant
            a@.len() == b@.len(),
            i <= a@.len(),
            forall|j: int| 0 <= j < i ==> a@[j]@ == b@[j]@,
        decreases a@.len() - i,
    {
        if !a[i].same(&b[i]) {
            assert(warnings_view(a@)[i as int] != warnings_view(b@)[i as int]);
            return false;
        }
        i = i + 1;
    }
    assert(warnings_view(a@) =~= warnings_view(b@));
    true
}

} // verus!
