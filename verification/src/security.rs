//! Who a request is made for.

use vstd::prelude::*;

verus! {

/// The subject of a request and the groups that the subject belongs to.
pub struct SecurityContext {
    pub subject: String,
    pub groups: Vec<String>,
}

/// Whether the group occurs among the first `count` groups.
pub open spec fn occurs(groups: Seq<String>, count: int, group: Seq<char>) -> bool {
    exists|i: int| 0 <= i < count && (#[trigger] groups[i])@ == group
}

/// No group occurs twice.
pub open spec fn distinct(groups: Seq<String>) -> bool {
    forall|i: int, j: int|
        0 <= i < j < groups.len() ==> (#[trigger] groups[i])@ != (#[trigger] groups[j])@
}

impl SecurityContext {
    /// No group of the context occurs twice.
    pub open spec fn wf(&self) -> bool {
        distinct(self.groups@)
    }

    /// The context of a subject with the given groups. A group that is
    /// given more than once is kept once.
    pub fn new(subject: String, groups: Vec<String>) -> (context: SecurityContext)
        ensures
            context.wf(),
            context.subject@ == subject@,
            forall|g: Seq<char>|
                occurs(context.groups@, context.groups@.len() as int, g) <==> occurs(
                    groups@,
                    groups@.len() as int,
                    g,
                ),
    {
        let mut kept: Vec<String> = Vec::new();
        let mut i: usize = 0;
        while i < groups.len()
            invariant
                i <= groups@.len(),
                distinct(kept@),
                forall|g: Seq<char>|
                    #![trigger occurs(kept@, kept@.len() as int, g)]
                    #![trigger occurs(groups@, i as int, g)]
                    occurs(kept@, kept@.len() as int, g) <==> occurs(groups@, i as int, g),
            decreases groups@.len() - i,
        {
            let ghost before = kept@;
            let found = contains_group(&kept, &groups[i]);
            if !found {
                kept.push(groups[i].clone());
                proof {
                    let added = groups@[i as int]@;
                    assert(kept@[before.len() as int]@ == added);
                    assert forall|g: Seq<char>|
                        occurs(kept@, kept@.len() as int, g) <==> occurs(
                            groups@,
                            i + 1,
                            g,
                        ) by {
                        if occurs(kept@, kept@.len() as int, g) {
                            let k = choose|k: int| 0 <= k < kept@.len() && (#[trigger] kept@[k])@ == g;
                            if k < before.len() {
                                assert(before[k]@ == g);
                                assert(occurs(before, before.len() as int, g));
                                let j = choose|j: int| 0 <= j < i && (#[trigger] groups@[j])@ == g;
                                assert(groups@[j]@ == g);
                            } else {
                                assert(groups@[i as int]@ == g);
                            }
                        }
                        if occurs(groups@, i + 1, g) {
                            let j = choose|j: int| 0 <= j < i + 1 && (#[trigger] groups@[j])@ == g;
                            if j < i {
                                assert(occurs(groups@, i as int, g));
                                let k = choose|k: int|
                                    0 <= k < before.len() && (#[trigger] before[k])@ == g;
                                assert(kept@[k]@ == g);
                            } else {
                                assert(kept@[before.len() as int]@ == g);
                            }
                        }
                    }
                    assert forall|a: int, b: int| 0 <= a < b < kept@.len() implies (
                    #[trigger] kept@[a])@ != (#[trigger] kept@[b])@ by {
                        if b == before.len() {
                            assert(kept@[a] == before[a]);
                        } else {
                            assert(kept@[a] == before[a] && kept@[b] == before[b]);
                        }
                    }
                }
            } else {
                proof {
                    assert forall|g: Seq<char>|
                        occurs(kept@, kept@.len() as int, g) <==> occurs(
                            groups@,
                            i + 1,
                            g,
                        ) by {
                        if occurs(kept@, kept@.len() as int, g) {
                            let j = choose|j: int| 0 <= j < i && (#[trigger] groups@[j])@ == g;
                            assert(groups@[j]@ == g);
                        }
                        if occurs(groups@, i + 1, g) {
                            let j = choose|j: int| 0 <= j < i + 1 && (#[trigger] groups@[j])@ == g;
                            if j < i {
                                assert(occurs(groups@, i as int, g));
                            }
                        }
                    }
                }
            }
            i = i + 1;
        }
        SecurityContext { subject, groups: kept }
    }

    /// Whether the subject belongs to the group.
    pub fn has_group(&self, group: &String) -> (found: bool)
        ensures
            found == occurs(self.groups@, self.groups@.len() as int, group@),
    {
        contains_group(&self.groups, group)
    }
}

/// Whether the group occurs among the groups.
fn contains_group(groups: &Vec<String>, group: &String) -> (found: bool)
    ensures
        found == occurs(groups@, groups@.len() as int, group@),
{
    let mut i: usize = 0;
    while i < groups.len()
        invariant
            i <= groups@.len(),
            !occurs(groups@, i as int, group@),
        decreases groups@.len() - i,
    {
        if groups[i] == *group {
            return true;
        }
        i = i + 1;
    }
    false
}

} // verus!
