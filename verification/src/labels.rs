//! The constant labels that every instrument carries.

use vstd::prelude::*;
use vstd::string::StringExecFns;
use crate::assoc::{is_last_match, lemma_table_absent, lemma_table_keys, lemma_table_lookup, lemma_table_push, no_match, table};
use crate::config::ConfigMetrics;

verus! {

/// Name of the label that holds the service identifier.
pub const SERVICE_LABEL: &'static str = "service";

/// Name of the label that holds the server identifier.
pub const SERVER_LABEL: &'static str = "server";

/// Name of the label that holds the datacenter identifier.
pub const DATACENTER_LABEL: &'static str = "datacenter";

/// Name of the label that holds the local host name.
pub const ZONENAME_LABEL: &'static str = "zonename";

/// One label: a name and its value.
pub struct Label {
    pub name: String,
    pub value: String,
}

/// A mapping from label name to label value.
pub struct LabelSet {
    pairs: Vec<Label>,
}

/// The pairs of views that a sequence of labels stands for.
pub open spec fn label_pairs(labels: Seq<Label>) -> Seq<(Seq<char>, Seq<char>)> {
    labels.map_values(|l: Label| (l.name@, l.value@))
}

impl View for LabelSet {
    type V = Map<Seq<char>, Seq<char>>;

    closed spec fn view(&self) -> Map<Seq<char>, Seq<char>> {
        table(label_pairs(self.pairs@))
    }
}

impl LabelSet {
    /// The bindings in the order in which they were made. A later binding of
    /// a name shadows the earlier ones.
    pub closed spec fn bindings(&self) -> Seq<(Seq<char>, Seq<char>)> {
        label_pairs(self.pairs@)
    }

    /// The labels in the order in which they were bound.
    pub closed spec fn labels(&self) -> Seq<Label> {
        self.pairs@
    }

    /// The mapping is the one that the bindings, read in order, stand for,
    /// and the bindings are the labels by their views.
    pub proof fn lemma_view_of_bindings(&self)
        ensures
            self@ == table(self.bindings()),
            self.bindings() == label_pairs(self.labels()),
    {
    }

    /// The names of the mapping are the names of the labels.
    pub proof fn lemma_names_of_labels(&self)
        ensures
            forall|name: Seq<char>| #[trigger]
                self@.contains_key(name) <==> exists|i: int|
                    0 <= i < self.labels().len() && (#[trigger] self.labels()[i]).name@ == name,
    {
        let pairs = label_pairs(self.pairs@);
        lemma_table_keys(pairs);
        assert forall|name: Seq<char>| #[trigger] self@.contains_key(name) implies exists|i: int|
            0 <= i < self.labels().len() && (#[trigger] self.labels()[i]).name@ == name by {
            let i = choose|i: int| 0 <= i < pairs.len() && (#[trigger] pairs[i]).0 == name;
            assert(self.labels()[i].name@ == name);
        }
        assert forall|name: Seq<char>|
            (exists|i: int| 0 <= i < self.labels().len() && (#[trigger] self.labels()[i]).name@ == name)
            implies #[trigger] self@.contains_key(name) by {
            let i = choose|i: int| 0 <= i < self.labels().len() && (#[trigger] self.labels()[i]).name@ == name;
            assert(pairs[i].0 == name);
        }
    }
}

impl LabelSet {
    /// The empty label set.
    pub fn new() -> (labels: Self)
        ensures
            labels@ == Map::<Seq<char>, Seq<char>>::empty(),
            labels.bindings() == Seq::<(Seq<char>, Seq<char>)>::empty(),
    {
        let labels = LabelSet { pairs: Vec::new() };
        assert(label_pairs(labels.pairs@) =~= Seq::empty());
        labels
    }

    /// Binds `name` to `value`, replacing what `name` was bound to.
    pub fn insert(&mut self, name: String, value: String)
        ensures
            final(self)@ == old(self)@.insert(name@, value@),
            final(self).bindings() == old(self).bindings().push((name@, value@)),
    {
        proof {
            lemma_table_push(label_pairs(self.pairs@), name@, value@);
            assert(label_pairs(self.pairs@.push(Label { name, value })) =~= label_pairs(
                self.pairs@,
            ).push((name@, value@)));
        }
        self.pairs.push(Label { name, value });
    }

    /// The number of bindings that were made.
    pub fn len(&self) -> (count: usize)
        ensures
            count == self.bindings().len(),
    {
        self.pairs.len()
    }

    /// The binding at a position, in the order in which the bindings were
    /// made, or nothing past the last one.
    pub fn binding(&self, position: usize) -> (found: Option<&Label>)
        ensures
            found is Some == (position < self.bindings().len()),
            found matches Some(label) ==> (label.name@, label.value@) == self.bindings()[position as int],
    {
        if position < self.pairs.len() {
            Some(&self.pairs[position])
        } else {
            None
        }
    }

    /// The value bound to `name`, if any.
    pub fn get(&self, name: &str) -> (found: Option<&String>)
        ensures
            found is Some == self@.contains_key(name@),
            found matches Some(value) ==> value@ == self@[name@],
    {
        let mut i: usize = self.pairs.len();
        while i > 0
            invariant
                i <= self.pairs.len(),
                forall|j: int| i <= j < self.pairs.len() ==> self.pairs@[j].name@ != name@,
            decreases i,
        {
            i = i - 1;
            if *self.pairs[i].name.as_str() == *name {
                proof {
                    let pairs = label_pairs(self.pairs@);
                    assert(is_last_match(pairs, name@, i as int));
                    lemma_table_lookup(pairs, name@, i as int);
                }
                return Some(&self.pairs[i].value);
            }
        }
        proof {
            let pairs = label_pairs(self.pairs@);
            assert(no_match(pairs, name@));
            lemma_table_absent(pairs, name@);
        }
        None
    }
}

impl LabelSet {
    /// The labels as the metrics backend is handed them.
    pub(crate) fn as_vec(&self) -> (labels: &Vec<Label>)
        ensures
            labels@ == self.labels(),
    {
        &self.pairs
    }
}

impl Clone for LabelSet {
    fn clone(&self) -> (copy: Self)
        ensures
            copy@ == self@,
            copy.bindings() == self.bindings(),
    {
        let mut pairs: Vec<Label> = Vec::new();
        let mut i: usize = 0;
        while i < self.pairs.len()
            invariant
                i <= self.pairs.len(),
                pairs.len() == i,
                forall|j: int| 0 <= j < i ==> pairs@[j] == self.pairs@[j],
            decreases self.pairs.len() - i,
        {
            let label = Label { name: self.pairs[i].name.clone(), value: self.pairs[i].value.clone() };
            pairs.push(label);
            i = i + 1;
        }
        assert(pairs@ =~= self.pairs@);
        LabelSet { pairs }
    }
}

/// The constant labels for a configuration on a host: the three identifiers
/// of the configuration, and the host name as the zone name.
pub open spec fn const_labels_of(config: ConfigMetrics, zonename: Seq<char>) -> Map<Seq<char>, Seq<char>> {
    Map::<Seq<char>, Seq<char>>::empty().insert(SERVICE_LABEL@, config.service@).insert(
        SERVER_LABEL@,
        config.server@,
    ).insert(DATACENTER_LABEL@, config.datacenter@).insert(ZONENAME_LABEL@, zonename)
}

/// Builds the constant labels for a configuration on the host `zonename`.
pub fn const_labels(config: &ConfigMetrics, zonename: String) -> (labels: LabelSet)
    ensures
        labels@ == const_labels_of(*config, zonename@),
{
    let mut labels = LabelSet::new();
    labels.insert(String::from_str(SERVICE_LABEL), config.service.clone());
    labels.insert(String::from_str(SERVER_LABEL), config.server.clone());
    labels.insert(String::from_str(DATACENTER_LABEL), config.datacenter.clone());
    labels.insert(String::from_str(ZONENAME_LABEL), zonename);
    labels
}

/// The four label names are four different names.
pub proof fn lemma_label_names_differ()
    ensures
        SERVICE_LABEL@ != SERVER_LABEL@,
        SERVICE_LABEL@ != DATACENTER_LABEL@,
        SERVICE_LABEL@ != ZONENAME_LABEL@,
        SERVER_LABEL@ != DATACENTER_LABEL@,
        SERVER_LABEL@ != ZONENAME_LABEL@,
        DATACENTER_LABEL@ != ZONENAME_LABEL@,
{
    reveal_strlit("service");
    reveal_strlit("server");
    reveal_strlit("datacenter");
    reveal_strlit("zonename");
    assert(SERVICE_LABEL@.len() == 7);
    assert(SERVER_LABEL@.len() == 6);
    assert(DATACENTER_LABEL@.len() == 10);
    assert(ZONENAME_LABEL@.len() == 8);
}

/// The label sets of two configurations on one host have the same four names
/// and the same zone name, and differ under a name exactly where the
/// configurations differ in the identifier that the name stands for.
pub proof fn lemma_labels_follow_config(first: ConfigMetrics, second: ConfigMetrics, zonename: Seq<char>)
    ensures
        ({
            let a = const_labels_of(first, zonename);
            let b = const_labels_of(second, zonename);
            &&& a.dom() == set![SERVICE_LABEL@, SERVER_LABEL@, DATACENTER_LABEL@, ZONENAME_LABEL@]
            &&& b.dom() == a.dom()
            &&& a[ZONENAME_LABEL@] == zonename
            &&& b[ZONENAME_LABEL@] == zonename
            &&& a[SERVICE_LABEL@] == first.service@
            &&& a[SERVER_LABEL@] == first.server@
            &&& a[DATACENTER_LABEL@] == first.datacenter@
            &&& (a[SERVICE_LABEL@] == b[SERVICE_LABEL@]) == (first.service@ == second.service@)
            &&& (a[SERVER_LABEL@] == b[SERVER_LABEL@]) == (first.server@ == second.server@)
            &&& (a[DATACENTER_LABEL@] == b[DATACENTER_LABEL@]) == (first.datacenter@
                == second.datacenter@)
        }),
{
    lemma_label_names_differ();
    let a = const_labels_of(first, zonename);
    let b = const_labels_of(second, zonename);
    let names = set![SERVICE_LABEL@, SERVER_LABEL@, DATACENTER_LABEL@, ZONENAME_LABEL@];
    assert(a.dom() =~= names);
    assert(b.dom() =~= names);
}

/// The place where the constant labels are published, for other parts of the
/// process that label their own instruments: empty until a registry is
/// built, and holding the labels of the latest registry from then on.
pub struct SharedLabels {
    labels: Option<LabelSet>,
}

impl SharedLabels {
    /// What is published, if anything is.
    pub closed spec fn published(&self) -> Option<Map<Seq<char>, Seq<char>>> {
        match self.labels {
            Some(labels) => Some(labels@),
            None => None,
        }
    }

    /// The place with nothing published yet.
    pub fn new() -> (shared: Self)
        ensures
            shared.published() is None,
    {
        SharedLabels { labels: None }
    }

    /// Publishes `labels`, in place of what was published before.
    pub fn publish(&mut self, labels: LabelSet)
        ensures
            final(self).published() == Some(labels@),
    {
        self.labels = Some(labels);
    }
}

/// The labels that are published, or nothing where none are yet.
pub fn get_const_labels(shared: &SharedLabels) -> (labels: Option<&LabelSet>)
    ensures
        match labels {
            Some(found) => shared.published() == Some(found@),
            None => shared.published() is None,
        },
{
    shared.labels.as_ref()
}

} // verus!
