//! The records of a run, grouped by creator.

use crate::paged::reversed;
use crate::vpc_info::{VpcInfo, VpcInfoView};
use vstd::prelude::*;
use vstd::pervasive::VecAdditionalExecFns;

verus! {

/// `records` as the contracts see them.
pub open spec fn records_view(records: Seq<VpcInfo>) -> Seq<VpcInfoView> {
    Seq::new(records.len(), |i: int| records[i]@)
}

/// The records of `records` that `creator` created, in their order.
pub open spec fn records_of(creator: Seq<char>, records: Seq<VpcInfoView>) -> Seq<VpcInfoView> {
    records.filter(|record: VpcInfoView| record.created_by == Some(creator))
}

/// The records of `records` whose creator is unknown, in their order.
pub open spec fn unknown_records(records: Seq<VpcInfoView>) -> Seq<VpcInfoView> {
    records.filter(|record: VpcInfoView| record.created_by is None)
}

/// The creators that `records` name, each once, in the order in which they
/// first occur.
pub open spec fn creators(records: Seq<VpcInfoView>) -> Seq<Seq<char>>
    decreases records.len(),
{
    if records.len() == 0 {
        Seq::empty()
    } else {
        let before = creators(records.drop_last());
        match records.last().created_by {
            Some(creator) => if before.contains(creator) {
                before
            } else {
                before.push(creator)
            },
            None => before,
        }
    }
}

/// The records of one creator.
pub struct Group {
    creator: String,
    records: Vec<VpcInfo>,
}

/// A [`Group`] as the contracts see it.
pub struct GroupView {
    pub creator: Seq<char>,
    pub records: Seq<VpcInfoView>,
}

impl View for Group {
    type V = GroupView;

    closed spec fn view(&self) -> GroupView {
        GroupView { creator: self.creator@, records: records_view(self.records@) }
    }
}

impl Group {
    pub fn creator(&self) -> (r: &String)
        ensures
            r@ == self@.creator,
    {
        &self.creator
    }

    /// The records of the creator, in the order in which they came.
    pub fn records(&self) -> (r: &Vec<VpcInfo>)
        ensures
            records_view(r@) == self@.records,
    {
        &self.records
    }
}

/// The records of a run: one group for each creator, in the order in which
/// the creators first occurred, and the records whose creator is unknown.
pub struct Report {
    knowns: Vec<Group>,
    unknowns: Vec<VpcInfo>,
}

/// A [`Report`] as the contracts see it.
pub struct ReportView {
    pub knowns: Seq<GroupView>,
    pub unknowns: Seq<VpcInfoView>,
}

/// `groups` as the contracts see them.
pub open spec fn groups_view(groups: Seq<Group>) -> Seq<GroupView> {
    Seq::new(groups.len(), |i: int| groups[i]@)
}

impl View for Report {
    type V = ReportView;

    closed spec fn view(&self) -> ReportView {
        ReportView { knowns: groups_view(self.knowns@), unknowns: records_view(self.unknowns@) }
    }
}

/// The report of `records`: every record stands in the group of its creator,
/// or among the unknown, and keeps its place among the records beside it.
pub open spec fn report_of(records: Seq<VpcInfoView>) -> ReportView {
    ReportView {
        knowns: Seq::new(
            creators(records).len(),
            |k: int|
                GroupView {
                    creator: creators(records)[k],
                    records: records_of(creators(records)[k], records),
                },
        ),
        unknowns: unknown_records(records),
    }
}

/// What one more record adds to the records of a creator.
proof fn lemma_records_of_push(creator: Seq<char>, records: Seq<VpcInfoView>, next: VpcInfoView)
    ensures
        records_of(creator, records.push(next)) == if next.created_by == Some(creator) {
            records_of(creator, records).push(next)
        } else {
            records_of(creator, records)
        },
{
    reveal(Seq::filter);
    assert(records.push(next).drop_last() =~= records);
}

/// What one more record adds to the records of unknown creator.
proof fn lemma_unknown_records_push(records: Seq<VpcInfoView>, next: VpcInfoView)
    ensures
        unknown_records(records.push(next)) == if next.created_by is None {
            unknown_records(records).push(next)
        } else {
            unknown_records(records)
        },
{
    reveal(Seq::filter);
    assert(records.push(next).drop_last() =~= records);
}

/// What one more record adds to the creators.
proof fn lemma_creators_push(records: Seq<VpcInfoView>, next: VpcInfoView)
    ensures
        creators(records.push(next)) == match next.created_by {
            Some(creator) => if creators(records).contains(creator) {
                creators(records)
            } else {
                creators(records).push(creator)
            },
            None => creators(records),
        },
{
    assert(records.push(next).drop_last() =~= records);
}

/// A creator that `records` do not name has no record among them.
proof fn lemma_unnamed_creator_has_no_record(creator: Seq<char>, records: Seq<VpcInfoView>)
    requires
        !creators(records).contains(creator),
    ensures
        records_of(creator, records) == Seq::<VpcInfoView>::empty(),
    decreases records.len(),
{
    reveal(Seq::filter);
    if records.len() > 0 {
        let front = records.drop_last();
        let before = creators(front);
        match records.last().created_by {
            Some(other) => {
                if before.contains(other) {
                } else {
                    assert(before.push(other)[before.len() as int] == other);
                    assert forall|i: int| 0 <= i < before.len() implies before[i] != creator by {
                        assert(before.push(other)[i] == before[i]);
                    }
                }
            },
            None => {},
        }
        assert(!before.contains(creator));
        lemma_unnamed_creator_has_no_record(creator, front);
    }
}

/// The creators that records name are distinct.
pub proof fn lemma_creators_are_distinct(records: Seq<VpcInfoView>)
    ensures
        forall|i: int, j: int|
            0 <= i < j < creators(records).len() ==> creators(records)[i] != creators(
                records,
            )[j],
    decreases records.len(),
{
    if records.len() > 0 {
        let before = creators(records.drop_last());
        lemma_creators_are_distinct(records.drop_last());
        match records.last().created_by {
            Some(creator) => {
                if !before.contains(creator) {
                    assert forall|i: int, j: int|
                        0 <= i < j < before.len() + 1 implies before.push(creator)[i]
                        != before.push(creator)[j] by {
                        if j == before.len() {
                            assert(before.contains(before[i]));
                        }
                    }
                }
            },
            None => {},
        }
    }
}

impl Report {
    /// Groups `records` by creator. The groups stand in the order in which
    /// their creators first occur, no creator has two groups, and within a
    /// group, as among the unknown, the records keep their order.
    pub fn from_records(records: Vec<VpcInfo>) -> (report: Report)
        ensures
            report@ == report_of(records_view(records@)),
    {
        let ghost all = records_view(records@);
        let ghost total = records@.len();
        let mut stack = reversed(records);
        let mut knowns: Vec<Group> = Vec::new();
        let mut unknowns: Vec<VpcInfo> = Vec::new();
        assert(all.take(0) =~= Seq::<VpcInfoView>::empty());
        assert(groups_view(knowns@) =~= report_of(all.take(0)).knowns);
        assert(records_view(unknowns@) =~= report_of(all.take(0)).unknowns) by {
            reveal(Seq::filter);
        }
        while stack.len() > 0
            invariant
                stack@.len() <= total,
                total == all.len(),
                records_view(stack@.reverse()) == all.skip(total - stack@.len()),
                groups_view(knowns@) == report_of(all.take(total - stack@.len())).knowns,
                records_view(unknowns@) == report_of(all.take(total - stack@.len())).unknowns,
            decreases stack.len(),
        {
            let ghost done = (total - stack@.len()) as int;
            let ghost seen = all.take(done);
            let ghost old_knowns = groups_view(knowns@);
            let ghost old_unknowns = records_view(unknowns@);
            let ghost old_stack = stack@;
            let ghost old_groups = knowns@;
            let record = stack.pop().unwrap();
            proof {
                assert(record == old_stack.reverse()[0]);
                assert(records_view(old_stack.reverse())[0] == record@);
                assert(record@ == all[done]);
                assert(all.take(done + 1) =~= seen.push(record@));
                assert(records_view(stack@.reverse()) =~= all.skip(done + 1)) by {
                    assert forall|i: int| 0 <= i < stack@.len() implies records_view(
                        stack@.reverse(),
                    )[i] == all.skip(done + 1)[i] by {
                        assert(stack@.reverse()[i] == old_stack.reverse()[i + 1]);
                        assert(records_view(old_stack.reverse())[i + 1] == all.skip(done)[i + 1]);
                    }
                }
                lemma_creators_push(seen, record@);
                lemma_unknown_records_push(seen, record@);
                lemma_creators_are_distinct(seen);
                assert forall|k: int| 0 <= k < creators(seen).len() implies records_of(
                    creators(seen)[k],
                    seen.push(record@),
                ) == if record@.created_by == Some(creators(seen)[k]) {
                    records_of(creators(seen)[k], seen).push(record@)
                } else {
                    records_of(creators(seen)[k], seen)
                } by {
                    lemma_records_of_push(creators(seen)[k], seen, record@);
                }
            }
            let place = match record.created_by() {
                Some(name) => find_group(&knowns, name),
                None => None,
            };
            let named = record.created_by().is_some();
            if !named {
                unknowns.push(record);
                proof {
                    assert(records_view(unknowns@) =~= old_unknowns.push(record@));
                    assert(groups_view(knowns@) =~= report_of(seen.push(record@)).knowns);
                }
            } else {
                let ghost creator = record@.created_by->0;
                match place {
                    Some(k) => {
                        proof {
                            assert(old_knowns.len() == creators(seen).len());
                            assert(old_knowns[k as int] == old_groups[k as int]@);
                            assert(creators(seen)[k as int] == creator);
                            assert(creators(seen).contains(creator));
                        }
                        let mut group = Group { creator: String::new(), records: Vec::new() };
                        knowns.set_and_swap(k, &mut group);
                        let ghost before = group@;
                        group.records.push(record);
                        assert(group@.records =~= before.records.push(record@));
                        knowns.set_and_swap(k, &mut group);
                        proof {
                            let now = groups_view(knowns@);
                            let want = report_of(seen.push(record@)).knowns;
                            assert(now.len() == want.len());
                            assert forall|j: int| 0 <= j < now.len() implies now[j] == want[j] by {
                                assert(old_knowns[j] == old_groups[j]@);
                                if j != k {
                                    assert(knowns@[j] == old_groups[j]);
                                    assert(creators(seen)[j] != creators(seen)[k as int]);
                                }
                            }
                            assert(now =~= want);
                        }
                    },
                    None => {
                        let name = match record.created_by() {
                            Some(name) => name.clone(),
                            None => String::new(),
                        };
                        proof {
                            assert(!creators(seen).contains(creator)) by {
                                if creators(seen).contains(creator) {
                                    let k = choose|k: int|
                                        0 <= k < creators(seen).len() && creators(seen)[k]
                                            == creator;
                                    assert(old_knowns.len() == creators(seen).len());
                                    assert(old_knowns.len() == old_groups.len());
                                    assert(old_knowns[k] == old_groups[k]@);
                                    assert(old_knowns[k].creator == creators(seen)[k]);
                                }
                            }
                            lemma_unnamed_creator_has_no_record(creator, seen);
                            lemma_records_of_push(creator, seen, record@);
                        }
                        let mut first: Vec<VpcInfo> = Vec::new();
                        first.push(record);
                        knowns.push(Group { creator: name, records: first });
                        proof {
                            assert(records_view(first@) =~= seq![record@]);
                            assert(Seq::<VpcInfoView>::empty().push(record@) =~= seq![record@]);
                            assert(old_knowns.len() == creators(seen).len());
                            assert(old_knowns.len() == old_groups.len());
                            let now = groups_view(knowns@);
                            let want = report_of(seen.push(record@)).knowns;
                            assert(now.len() == want.len());
                            assert forall|j: int| 0 <= j < now.len() implies now[j] == want[j] by {
                                if j < old_groups.len() {
                                    assert(knowns@[j] == old_groups[j]);
                                    assert(old_knowns[j] == old_groups[j]@);
                                    assert(creators(seen).contains(creators(seen)[j]));
                                }
                            }
                            assert(now =~= want);
                        }
                    },
                }
                assert(records_view(unknowns@) == report_of(seen.push(record@)).unknowns);
            }
        }
        assert(all.take(total as int) =~= all);
        Report { knowns, unknowns }
    }

    /// The groups, in the order in which their creators first occurred.
    pub fn knowns(&self) -> (r: &Vec<Group>)
        ensures
            groups_view(r@) == self@.knowns,
    {
        &self.knowns
    }

    /// The records whose creator is unknown, in the order in which they came.
    pub fn unknowns(&self) -> (r: &Vec<VpcInfo>)
        ensures
            records_view(r@) == self@.unknowns,
    {
        &self.unknowns
    }
}

/// Where among `groups` the group of `creator` stands.
fn find_group(groups: &Vec<Group>, creator: &String) -> (place: Option<usize>)
    ensures
        match place {
            Some(k) => k < groups@.len() && groups@[k as int]@.creator == creator@,
            None => forall|k: int| 0 <= k < groups@.len() ==> groups@[k]@.creator != creator@,
        },
{
    let mut k: usize = 0;
    while k < groups.len()
        invariant
            k <= groups@.len(),
            forall|j: int| 0 <= j < k ==> groups@[j]@.creator != creator@,
        decreases groups@.len() - k,
    {
        if groups[k].creator == *creator {
            return Some(k);
        }
        k = k + 1;
    }
    None
}

/// How many records `groups` hold.
pub open spec fn grouped_count(groups: Seq<GroupView>) -> nat
    decreases groups.len(),
{
    if groups.len() == 0 {
        0
    } else {
        grouped_count(groups.drop_last()) + groups.last().records.len()
    }
}

/// One more record in one group is one more record in all.
proof fn lemma_grouped_count_update(groups: Seq<GroupView>, k: int, group: GroupView)
    requires
        0 <= k < groups.len(),
        group.records.len() == groups[k].records.len() + 1,
    ensures
        grouped_count(groups.update(k, group)) == grouped_count(groups) + 1,
    decreases groups.len(),
{
    let updated = groups.update(k, group);
    if k == groups.len() - 1 {
        assert(updated.drop_last() =~= groups.drop_last());
    } else {
        lemma_grouped_count_update(groups.drop_last(), k, group);
        assert(updated.drop_last() =~= groups.drop_last().update(k, group));
    }
}

/// A report holds every record once: in the group of its creator, or among
/// the unknown.
pub proof fn lemma_report_holds_every_record(records: Seq<VpcInfoView>)
    ensures
        grouped_count(report_of(records).knowns) + report_of(records).unknowns.len()
            == records.len(),
    decreases records.len(),
{
    if records.len() == 0 {
        reveal(Seq::filter);
        assert(report_of(records).knowns =~= Seq::<GroupView>::empty());
    } else {
        let seen = records.drop_last();
        let next = records.last();
        assert(records =~= seen.push(next));
        lemma_report_holds_every_record(seen);
        lemma_creators_push(seen, next);
        lemma_unknown_records_push(seen, next);
        lemma_creators_are_distinct(seen);
        let before = report_of(seen).knowns;
        let after = report_of(records).knowns;
        assert forall|k: int| 0 <= k < creators(seen).len() implies records_of(
            creators(seen)[k],
            records,
        ) == if next.created_by == Some(creators(seen)[k]) {
            records_of(creators(seen)[k], seen).push(next)
        } else {
            records_of(creators(seen)[k], seen)
        } by {
            lemma_records_of_push(creators(seen)[k], seen, next);
        }
        match next.created_by {
            Some(creator) => {
                if creators(seen).contains(creator) {
                    let k = choose|k: int|
                        0 <= k < creators(seen).len() && creators(seen)[k] == creator;
                    let group = GroupView {
                        creator,
                        records: records_of(creator, seen).push(next),
                    };
                    assert(after =~= before.update(k, group)) by {
                        assert forall|j: int| 0 <= j < after.len() implies after[j]
                            == before.update(k, group)[j] by {
                            if j != k {
                                assert(creators(seen)[j] != creators(seen)[k]);
                            }
                        }
                    }
                    lemma_grouped_count_update(before, k, group);
                } else {
                    lemma_unnamed_creator_has_no_record(creator, seen);
                    lemma_records_of_push(creator, seen, next);
                    let group = GroupView {
                        creator,
                        records: Seq::<VpcInfoView>::empty().push(next),
                    };
                    assert(after =~= before.push(group)) by {
                        assert forall|j: int| 0 <= j < after.len() implies after[j]
                            == before.push(group)[j] by {
                            if j < before.len() {
                                assert(creators(seen).contains(creators(seen)[j]));
                            }
                        }
                    }
                    assert(after.drop_last() =~= before);
                }
            },
            None => {
                assert(after =~= before);
            },
        }
    }
}

} // verus!
