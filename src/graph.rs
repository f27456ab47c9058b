use vstd::prelude::*;

use crate::error::BridgeError;
use crate::stage::{caps_compatible, Stage};

verus! {

/// The ordered lifecycle states of a pipeline.
#[derive(Debug, Clone, Copy, PartialEq, Eq, Structural)]
pub enum PipelineState {
    Null,
    Ready,
    Paused,
    Playing,
}

/// A directed link from the default output of one stage to the input of another,
/// by position in the graph's stage list.
#[derive(Debug, Clone, Copy, PartialEq, Eq, Structural)]
pub struct Link {
    pub producer: usize,
    pub consumer: usize,
}

/// An ordered container of stages, the links between them, and a lifecycle state.
#[derive(Debug)]
pub struct PipelineGraph {
    pub name: String,
    pub stages: Vec<Stage>,
    pub links: Vec<Link>,
    pub state: PipelineState,
}

/// The instance names of `stages`, in order.
pub open spec fn names_of(stages: Seq<Stage>) -> Seq<Seq<char>> {
    Seq::new(stages.len(), |i: int| stages[i].name@)
}

/// Whether position `i` of `stages` holds the stage named `n`.
pub open spec fn named_at(stages: Seq<Stage>, i: int, n: Seq<char>) -> bool {
    0 <= i < stages.len() && stages[i].name@ == n
}

/// The position of the stage named `n`, or -1 when there is none.
pub open spec fn index_of(stages: Seq<Stage>, n: Seq<char>) -> int {
    if exists|i: int| named_at(stages, i, n) {
        choose|i: int| named_at(stages, i, n)
    } else {
        -1
    }
}

/// Whether some link already feeds the input of the stage at position `c`.
pub open spec fn consumer_linked(links: Seq<Link>, c: int) -> bool {
    exists|i: int| 0 <= i < links.len() && #[trigger] links[i].consumer == c
}

/// Whether a link from the stage named `p` to the stage named `c` may be made:
/// both are members, the consumer is still free, and their declared caps agree.
pub open spec fn link_allowed(stages: Seq<Stage>, links: Seq<Link>, p: Seq<char>, c: Seq<char>) -> bool {
    let pi = index_of(stages, p);
    let ci = index_of(stages, c);
    pi >= 0 && ci >= 0 && !consumer_linked(links, ci) && caps_compatible(
        stages[pi].kind,
        stages[ci].kind,
    )
}

/// The link that joins the stages named `p` and `c`.
pub open spec fn link_between(stages: Seq<Stage>, p: Seq<char>, c: Seq<char>) -> Link {
    Link { producer: index_of(stages, p) as usize, consumer: index_of(stages, c) as usize }
}

/// The views of a list of strings.
pub open spec fn views_of(names: Seq<String>) -> Seq<Seq<char>> {
    Seq::new(names.len(), |i: int| names[i]@)
}

/// The number of consecutive pairs in a list of `n` names.
pub open spec fn pair_count(n: int) -> int {
    if n > 0 {
        n - 1
    } else {
        0
    }
}

/// `after` extends `before` by the first `after.len() - before.len()` links of the
/// chain `names`, each of which was allowed when it was made.
pub open spec fn chain_prefix_made(
    stages: Seq<Stage>,
    before: Seq<Link>,
    after: Seq<Link>,
    names: Seq<Seq<char>>,
) -> bool {
    let k = after.len() - before.len();
    &&& 0 <= k <= pair_count(names.len() as int)
    &&& after.subrange(0, before.len() as int) == before
    &&& forall|j: int|
        #![trigger names[j]]
        0 <= j < k ==> link_allowed(stages, after.subrange(0, before.len() + j), names[j], names[j + 1])
            && after[before.len() + j] == link_between(stages, names[j], names[j + 1])
}

/// With unique names, the stage named `n` at position `i` is the one `index_of` finds.
pub proof fn lemma_index_of_unique(stages: Seq<Stage>, i: int, n: Seq<char>)
    requires
        names_of(stages).no_duplicates(),
        named_at(stages, i, n),
    ensures
        index_of(stages, n) == i,
{
    let c = index_of(stages, n);
    assert(named_at(stages, c, n));
    assert(names_of(stages)[c] == names_of(stages)[i]);
}

proof fn lemma_push_no_duplicates(s: Seq<Seq<char>>, x: Seq<char>)
    requires
        s.no_duplicates(),
        !s.contains(x),
    ensures
        s.push(x).no_duplicates(),
{
    assert forall|i: int, j: int|
        0 <= i < s.push(x).len() && 0 <= j < s.push(x).len() && i != j implies s.push(x)[i]
        != s.push(x)[j] by {
        if i < s.len() && j < s.len() {
        } else if i < s.len() {
            assert(s.contains(s[i]));
        } else {
            assert(s.contains(s[j]));
        }
    }
}

impl PipelineGraph {
    /// Well-formed: names are unique, links stay inside the graph, and each
    /// consumer is fed by at most one link.
    pub open spec fn wf(&self) -> bool {
        &&& names_of(self.stages@).no_duplicates()
        &&& forall|i: int|
            0 <= i < self.links@.len() ==> #[trigger] self.links@[i].producer < self.stages@.len()
                && self.links@[i].consumer < self.stages@.len()
        &&& forall|i: int, j: int|
            0 <= i < self.links@.len() && 0 <= j < self.links@.len() && i != j
                ==> #[trigger] self.links@[i].consumer != #[trigger] self.links@[j].consumer
    }

    /// An empty graph in the Null state.
    pub fn new(name: &str) -> (r: PipelineGraph)
        ensures
            r.wf(),
            r.name@ == name@,
            r.stages@.len() == 0,
            r.links@.len() == 0,
            r.state == PipelineState::Null,
    {
        PipelineGraph { name: name.to_owned(), stages: Vec::new(), links: Vec::new(), state: PipelineState::Null }
    }

    /// The position of the stage named `name`, if it is a member.
    pub fn find(&self, name: &str) -> (r: Option<usize>)
        requires
            self.wf(),
        ensures
            r matches Some(i) ==> i == index_of(self.stages@, name@) && named_at(self.stages@, i as int, name@),
            r is None ==> index_of(self.stages@, name@) == -1,
    {
        let wanted = name.to_owned();
        let mut i: usize = 0;
        while i < self.stages.len()
            invariant
                i <= self.stages@.len(),
                self.wf(),
                wanted@ == name@,
                forall|j: int| 0 <= j < i ==> !named_at(self.stages@, j, name@),
            decreases self.stages@.len() - i,
        {
            if self.stages[i].name == wanted {
                proof {
                    lemma_index_of_unique(self.stages@, i as int, name@);
                }
                return Some(i);
            }
            i = i + 1;
        }
        None
    }

    /// Whether a link already feeds the input of the stage at position `c`.
    pub fn is_consumer_linked(&self, c: usize) -> (r: bool)
        ensures
            r == consumer_linked(self.links@, c as int),
    {
        let mut i: usize = 0;
        while i < self.links.len()
            invariant
                i <= self.links@.len(),
                forall|j: int| 0 <= j < i ==> self.links@[j].consumer != c,
            decreases self.links@.len() - i,
        {
            if self.links[i].consumer == c {
                return true;
            }
            i = i + 1;
        }
        false
    }

    /// Whether `stages[..upto]` holds a stage named `n`.
    fn name_in_prefix(stages: &Vec<Stage>, upto: usize, n: &String) -> (r: bool)
        requires
            upto <= stages@.len(),
        ensures
            r == names_of(stages@).subrange(0, upto as int).contains(n@),
    {
        let mut i: usize = 0;
        while i < upto
            invariant
                upto <= stages@.len(),
                i <= upto,
                forall|j: int| 0 <= j < i ==> stages@[j].name@ != n@,
            decreases upto - i,
        {
            if stages[i].name == *n {
                assert(names_of(stages@).subrange(0, upto as int)[i as int] == n@);
                return true;
            }
            i = i + 1;
        }
        false
    }

    /// Adds one stage; fails when its instance name is already taken.
    pub fn add(&mut self, stage: Stage) -> (r: Result<(), BridgeError>)
        requires
            old(self).wf(),
        ensures
            final(self).wf(),
            r is Ok <==> !names_of(old(self).stages@).contains(stage.name@),
            r is Ok ==> final(self).stages@ == old(self).stages@.push(stage) && final(self).links
                == old(self).links && final(self).state == old(self).state && final(self).name
                == old(self).name,
            r is Err ==> *final(self) == *old(self),
            r matches Err(e) ==> e matches BridgeError::DuplicateStage { name } && name@ == stage.name@,
    {
        let len = self.stages.len();
        if Self::name_in_prefix(&self.stages, len, &stage.name) {
            assert(names_of(self.stages@).subrange(0, len as int) == names_of(self.stages@));
            return Err(BridgeError::DuplicateStage { name: stage.name.clone() });
        }
        assert(names_of(self.stages@).subrange(0, len as int) == names_of(self.stages@));
        let ghost before = self.stages@;
        self.stages.push(stage);
        proof {
            assert(names_of(self.stages@) == names_of(before).push(stage.name@));
            lemma_push_no_duplicates(names_of(before), stage.name@);
        }
        Ok(())
    }

    /// Adds a batch of stages all or nothing: when one name clashes with a
    /// member or an earlier stage of the batch, nothing is added and the first
    /// clash is reported.
    pub fn add_many(&mut self, mut batch: Vec<Stage>) -> (r: Result<(), BridgeError>)
        requires
            old(self).wf(),
        ensures
            final(self).wf(),
            r is Ok <==> (names_of(old(self).stages@) + names_of(batch@)).no_duplicates(),
            r is Ok ==> final(self).stages@ == old(self).stages@ + batch@ && final(self).links
                == old(self).links && final(self).state == old(self).state && final(self).name
                == old(self).name,
            r is Err ==> *final(self) == *old(self),
            r matches Err(e) ==> exists|k: int|
                0 <= k < batch@.len() && (names_of(old(self).stages@) + names_of(batch@).subrange(
                    0,
                    k,
                )).no_duplicates() && (names_of(old(self).stages@) + names_of(batch@).subrange(
                    0,
                    k,
                )).contains(batch@[k].name@) && e == (BridgeError::DuplicateStage {
                    name: batch@[k].name,
                }),
    {
        let ghost members = names_of(self.stages@);
        let ghost incoming = names_of(batch@);
        let mut i: usize = 0;
        assert(members + incoming.subrange(0, 0) == members);
        while i < batch.len()
            invariant
                i <= batch@.len(),
                self.wf(),
                members == names_of(self.stages@),
                incoming == names_of(batch@),
                (members + incoming.subrange(0, i as int)).no_duplicates(),
            decreases batch@.len() - i,
        {
            let len = self.stages.len();
            let in_graph = Self::name_in_prefix(&self.stages, len, &batch[i].name);
            let in_batch = Self::name_in_prefix(&batch, i, &batch[i].name);
            let ghost n = batch@[i as int].name@;
            let ghost seen = members + incoming.subrange(0, i as int);
            assert(names_of(self.stages@).subrange(0, len as int) == members);
            proof {
                assert(seen.contains(n) <==> (members.contains(n) || incoming.subrange(0, i as int).contains(n))) by {
                    if seen.contains(n) {
                        let w = choose|w: int| 0 <= w < seen.len() && seen[w] == n;
                        if w >= members.len() {
                            assert(incoming.subrange(0, i as int)[w - members.len()] == n);
                        }
                    }
                    if members.contains(n) {
                        let w = choose|w: int| 0 <= w < members.len() && members[w] == n;
                        assert(seen[w] == n);
                    }
                    if incoming.subrange(0, i as int).contains(n) {
                        let w = choose|w: int| 0 <= w < i && incoming.subrange(0, i as int)[w] == n;
                        assert(seen[members.len() + w] == n);
                    }
                }
                assert(names_of(batch@).subrange(0, i as int) == incoming.subrange(0, i as int));
            }
            if in_graph || in_batch {
                proof {
                    assert(seen.contains(n));
                    assert(!(members + incoming).no_duplicates()) by {
                        let w = choose|w: int| 0 <= w < seen.len() && seen[w] == n;
                        assert((members + incoming)[w] == n);
                        assert((members + incoming)[members.len() + i] == n);
                    }
                }
                let name = batch[i].name.clone();
                proof {
                    assert(seen == names_of(old(self).stages@) + names_of(batch@).subrange(0, i as int));
                    assert(seen.no_duplicates() && seen.contains(batch@[i as int].name@));
                    assert(name == batch@[i as int].name);
                }
                return Err(BridgeError::DuplicateStage { name });
            }
            proof {
                assert(members + incoming.subrange(0, i + 1) == seen.push(n));
                lemma_push_no_duplicates(seen, n);
            }
            i = i + 1;
        }
        assert(incoming.subrange(0, batch@.len() as int) == incoming);
        let ghost before = self.stages@;
        let ghost added = batch@;
        self.stages.append(&mut batch);
        assert(names_of(self.stages@) == members + incoming);
        assert(self.stages@ == before + added);
        Ok(())
    }

    /// Links the default output of the stage named `producer` to the input of
    /// the stage named `consumer`.
    pub fn link(&mut self, producer: &str, consumer: &str) -> (r: Result<(), BridgeError>)
        requires
            old(self).wf(),
        ensures
            final(self).wf(),
            r is Ok <==> link_allowed(old(self).stages@, old(self).links@, producer@, consumer@),
            r is Ok ==> final(self).links@ == old(self).links@.push(
                link_between(old(self).stages@, producer@, consumer@),
            ),
            r is Ok ==> final(self).links@.last().producer as int == index_of(old(self).stages@, producer@)
                && final(self).links@.last().consumer as int == index_of(old(self).stages@, consumer@),
            final(self).stages == old(self).stages,
            final(self).state == old(self).state,
            final(self).name == old(self).name,
            r is Err ==> *final(self) == *old(self),
            r matches Err(e) ==> e matches BridgeError::Unlinkable { producer: p, consumer: c } && p@
                == producer@ && c@ == consumer@,
    {
        let p = self.find(producer);
        let c = self.find(consumer);
        if let (Some(pi), Some(ci)) = (p, c) {
            if !self.is_consumer_linked(ci) && self.stages[pi].kind.compatible_with(&self.stages[ci].kind) {
                let ghost before = self.links@;
                self.links.push(Link { producer: pi, consumer: ci });
                proof {
                    assert forall|i: int, j: int|
                        0 <= i < self.links@.len() && 0 <= j < self.links@.len() && i != j implies
                        #[trigger] self.links@[i].consumer != #[trigger] self.links@[j].consumer by {
                        if i == before.len() {
                            assert(before[j].consumer != ci);
                        } else if j == before.len() {
                            assert(before[i].consumer != ci);
                        } else {
                            assert(before[i] == self.links@[i] && before[j] == self.links@[j]);
                        }
                    }
                    assert forall|i: int| 0 <= i < self.links@.len() implies #[trigger] self.links@[i].producer
                        < self.stages@.len() && self.links@[i].consumer < self.stages@.len() by {
                        if i < before.len() {
                            assert(before[i] == self.links@[i]);
                        }
                    }
                }
                return Ok(());
            }
        }
        Err(BridgeError::Unlinkable { producer: producer.to_owned(), consumer: consumer.to_owned() })
    }

    /// Links consecutive stages of `names` in order. It stops at the first pair
    /// that cannot be linked and reports it; the links made before it remain.
    pub fn link_many(&mut self, names: &Vec<String>) -> (r: Result<(), BridgeError>)
        requires
            old(self).wf(),
        ensures
            final(self).wf(),
            final(self).stages == old(self).stages,
            final(self).state == old(self).state,
            final(self).name == old(self).name,
            chain_prefix_made(old(self).stages@, old(self).links@, final(self).links@, views_of(names@)),
            r is Ok <==> final(self).links@.len() - old(self).links@.len() == pair_count(names@.len() as int),
            r matches Err(e) ==> ({
                let k = final(self).links@.len() - old(self).links@.len();
                let vs = views_of(names@);
                &&& k + 1 < vs.len()
                &&& !link_allowed(old(self).stages@, final(self).links@, vs[k], vs[k + 1])
                &&& e matches BridgeError::Unlinkable { producer: p, consumer: c } && p@ == vs[k] && c@
                    == vs[k + 1]
            }),
    {
        let ghost vs = views_of(names@);
        let ghost start = self.links@;
        let mut i: usize = 0;
        assert(self.links@.subrange(0, start.len() as int) == start);
        while i < names.len() && i + 1 < names.len()
            invariant
                i <= names@.len(),
                self.wf(),
                self.stages == old(self).stages,
                self.state == old(self).state,
                self.name == old(self).name,
                start == old(self).links@,
                vs == views_of(names@),
                i <= pair_count(names@.len() as int),
                self.links@.len() == start.len() + i,
                chain_prefix_made(self.stages@, start, self.links@, vs),
            decreases names@.len() - i,
        {
            let ghost prev = self.links@;
            let r = self.link(names[i].as_str(), names[i + 1].as_str());
            match r {
                Err(e) => {
                    return Err(e);
                },
                Ok(()) => {},
            }
            proof {
                let now = self.links@;
                assert(vs[i as int] == names@[i as int]@);
                assert(vs[i + 1] == names@[i + 1]@);
                assert(now == prev.push(link_between(self.stages@, vs[i as int], vs[i + 1])));
                assert(link_allowed(self.stages@, prev, vs[i as int], vs[i + 1]));
                assert(now.subrange(0, start.len() as int) == prev.subrange(0, start.len() as int));
                assert forall|j: int| #![trigger vs[j]] 0 <= j < i + 1 implies link_allowed(
                    self.stages@,
                    now.subrange(0, start.len() + j),
                    vs[j],
                    vs[j + 1],
                ) && now[start.len() + j] == link_between(self.stages@, vs[j], vs[j + 1]) by {
                    if j < i {
                        assert(now.subrange(0, start.len() + j) == prev.subrange(0, start.len() + j));
                        assert(now[start.len() + j] == prev[start.len() + j]);
                    } else {
                        assert(now.subrange(0, start.len() + j) == prev);
                    }
                }
                assert(chain_prefix_made(self.stages@, start, now, vs));
            }
            i = i + 1;
        }
        Ok(())
    }

    /// Applies the runtime's answer to a request for `target`: the state moves
    /// when the request was accepted, and stays otherwise.
    pub fn set_state(&mut self, target: PipelineState, accepted: bool) -> (r: Result<(), BridgeError>)
        requires
            old(self).wf(),
        ensures
            final(self).wf(),
            r is Ok <==> accepted,
            final(self).state == (if accepted { target } else { old(self).state }),
            final(self).stages == old(self).stages,
            final(self).links == old(self).links,
            final(self).name == old(self).name,
            r is Err ==> r == Err::<(), BridgeError>(BridgeError::StateChange),
    {
        if accepted {
            self.state = target;
            Ok(())
        } else {
            Err(BridgeError::StateChange)
        }
    }
}

} // verus!
