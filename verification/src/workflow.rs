use vstd::prelude::*;
use crate::errors::ConfigError;
use crate::errors::FlowError;
use crate::machine::Frame;
use crate::machine::FrameCtx;
use crate::machine::Machine;
use crate::machine::PhaseV;
use crate::model::Notifier;
use crate::model::YamlWorkflow;
use crate::notifiers::NotifierKind;
use crate::notifiers::PrintNotifier;
use crate::notifiers::TelegramNotifier;
use crate::notifiers::sent_one;
use crate::numbers::parse_i64;
use crate::numbers::valid_i64_text;
use crate::numbers::i64_val;

verus! {

/// The delivery channels of one flow run, by name. Built once per run
/// from the flow's declared configs, not shared across runs.
pub struct NotifierSet {
    entries: Vec<(String, NotifierKind)>,
}

/// The position of the channel a name refers to: the latest entry
/// with that name (a later declaration shadows an earlier one).
pub open spec fn find_name(s: Seq<(String, NotifierKind)>, n: Seq<char>) -> Option<int>
    decreases s.len(),
{
    if s.len() == 0 {
        None
    } else if s.last().0@ == n {
        Some(s.len() - 1)
    } else {
        find_name(s.drop_last(), n)
    }
}

impl NotifierSet {
    pub closed spec fn entries_seq(self) -> Seq<(String, NotifierKind)> {
        self.entries@
    }

    /// The declared names, in declaration order.
    pub open spec fn spec_names(self) -> Seq<Seq<char>> {
        self.entries_seq().map_values(|e: (String, NotifierKind)| e.0@)
    }

    /// The channels, in declaration order.
    pub open spec fn kinds(self) -> Seq<NotifierKind> {
        self.entries_seq().map_values(|e: (String, NotifierKind)| e.1)
    }

    pub fn new() -> (r: NotifierSet)
        ensures
            r.entries_seq() =~= Seq::<(String, NotifierKind)>::empty(),
    {
        NotifierSet { entries: Vec::new() }
    }

    pub fn add(&mut self, name: String, kind: NotifierKind)
        ensures
            final(self).entries_seq() =~= old(self).entries_seq().push((name, kind)),
    {
        self.entries.push((name, kind));
    }

    pub fn len(&self) -> (n: usize)
        ensures
            n == self.entries_seq().len(),
    {
        self.entries.len()
    }

    /// The channel at a declaration position, for inspection.
    pub fn kind_at(&self, i: usize) -> (r: &NotifierKind)
        requires
            i < self.entries_seq().len(),
        ensures
            *r == self.kinds()[i as int],
    {
        proof {
            assert(self.kinds()[i as int] == self.entries_seq()[i as int].1);
        }
        &self.entries[i].1
    }

    /// The declared names, for handing to a [`Machine`].
    pub fn names(&self) -> (r: Vec<String>)
        ensures
            r@.map_values(|s: String| s@) =~= self.spec_names(),
    {
        let n = self.entries.len();
        let mut out: Vec<String> = Vec::new();
        let mut i: usize = 0;
        while i < n
            invariant
                i <= n,
                n == self.entries.len(),
                out@.len() == i,
                forall|k: int| 0 <= k < i ==> (#[trigger] out@[k])@ == self.entries@[k].0@,
            decreases n - i,
        {
            out.push(self.entries[i].0.clone());
            i = i + 1;
        }
        proof {
            assert(out@.map_values(|s: String| s@) =~= self.spec_names());
        }
        out
    }

    /// Delivers a message to the channel of the given name. A name the
    /// flow never declared is a fatal configuration error; a delivery
    /// failure of the channel itself is an operational one.
    pub fn send(&mut self, name: &String, msg: &str) -> (r: Result<(), FlowError>)
        ensures
            final(self).entries_seq().len() == old(self).entries_seq().len(),
            (match find_name(old(self).entries_seq(), name@) {
                None => r == Err::<(), FlowError>(FlowError::MissingNotifier)
                    && final(self).entries_seq() == old(self).entries_seq(),
                Some(j) => {
                    &&& (forall|k: int|
                        0 <= k < old(self).entries_seq().len() && k != j
                            ==> (#[trigger] final(self).entries_seq()[k]) == old(
                            self,
                        ).entries_seq()[k])
                    &&& final(self).entries_seq()[j].0 == old(self).entries_seq()[j].0
                    &&& sent_one(
                        old(self).entries_seq()[j].1,
                        final(self).entries_seq()[j].1,
                        msg@,
                    )
                    &&& (r matches Err(e) ==> e == FlowError::OperationFailed)
                    &&& (old(self).entries_seq()[j].1 matches NotifierKind::Telegram(_) || r is Ok)
                },
            }),
    {
        proof {
            assert(self.entries@.take(self.entries@.len() as int) =~= self.entries@);
        }
        let mut i = self.entries.len();
        while i > 0
            invariant
                i <= self.entries.len(),
                self.entries@ == old(self).entries_seq(),
                find_name(self.entries@, name@) == find_name(
                    self.entries@.take(i as int),
                    name@,
                ),
            decreases i,
        {
            i = i - 1;
            proof {
                assert(self.entries@.take(i + 1).drop_last() =~= self.entries@.take(i as int));
                assert(self.entries@.take(i + 1).last() == self.entries@[i as int]);
            }
            if self.entries[i].0 == *name {
                let mut current = (String::new(), NotifierKind::Print(PrintNotifier::new()));
                self.entries.set_and_swap(i, &mut current);
                let (entry_name, mut kind) = current;
                let r = kind.send_message(msg);
                let mut current = (entry_name, kind);
                self.entries.set_and_swap(i, &mut current);
                proof {
                    assert(find_name(old(self).entries_seq(), name@) == Some(i as int));
                    assert(self.entries@ =~= old(self).entries_seq().update(
                        i as int,
                        self.entries@[i as int],
                    ));
                }
                return r;
            }
        }
        proof {
            assert(self.entries@.take(0) =~= Seq::<(String, NotifierKind)>::empty());
        }
        Err(FlowError::MissingNotifier)
    }
}

/// A name is found exactly when some entry carries it.
pub proof fn lemma_find_name_some(s: Seq<(String, NotifierKind)>, n: Seq<char>)
    ensures
        (find_name(s, n) is Some) <==> exists|i: int|
            0 <= i < s.len() && (#[trigger] s[i]).0@ == n,
    decreases s.len(),
{
    if s.len() > 0 && s.last().0@ != n {
        lemma_find_name_some(s.drop_last(), n);
        if exists|i: int| 0 <= i < s.len() && (#[trigger] s[i]).0@ == n {
            let i = choose|i: int| 0 <= i < s.len() && (#[trigger] s[i]).0@ == n;
            assert(i < s.len() - 1);
            assert(s.drop_last()[i].0@ == n);
        }
    }
}

/// A name the machine accepted when it reached the Notify step is one
/// the set will find: delivery asked for by the machine never fails
/// the set's own missing-name check.
pub proof fn lemma_declared_name_found(set: NotifierSet, n: Seq<char>)
    requires
        set.spec_names().contains(n),
    ensures
        find_name(set.entries_seq(), n) is Some,
{
    let i = choose|i: int| 0 <= i < set.spec_names().len() && set.spec_names()[i] == n;
    assert(set.entries_seq()[i].0@ == n);
    lemma_find_name_some(set.entries_seq(), n);
}

/// What is wrong with a notifier config, if anything: the type must be
/// "print" or "telegram", and a telegram config needs a token and a
/// chat id that is a decimal signed 64-bit integer.
pub open spec fn config_error_of(c: Notifier) -> Option<ConfigError> {
    if c.notifier_type@ == "print"@ {
        None
    } else if c.notifier_type@ == "telegram"@ {
        match c.token {
            None => Some(ConfigError::MissingToken),
            Some(_) => match c.chat_id {
                None => Some(ConfigError::MissingChatId),
                Some(cid) => if valid_i64_text(cid@) {
                    None
                } else {
                    Some(ConfigError::InvalidChatId)
                },
            },
        }
    } else {
        Some(ConfigError::InvalidNotifierType)
    }
}

/// The channel a valid config describes.
pub open spec fn kind_matches(c: Notifier, k: NotifierKind) -> bool {
    if c.notifier_type@ == "print"@ {
        k matches NotifierKind::Print(_)
    } else {
        match (c.token, c.chat_id) {
            (Some(t), Some(cid)) => (k matches NotifierKind::Telegram(tg) && tg.spec_token() == t@
                && tg.spec_chat_id() as int == i64_val(cid@)),
            _ => false,
        }
    }
}

/// Builds a run's notifier set from the flow's declared configs, in
/// order. The first broken config is a fatal error: the definition
/// itself is wrong, and no step of the flow may run.
pub fn build_notifiers(configs: &Vec<Notifier>) -> (r: Result<NotifierSet, ConfigError>)
    ensures
        (match r {
            Ok(set) => {
                &&& set.entries_seq().len() == configs@.len()
                &&& (forall|k: int|
                    0 <= k < configs@.len() ==> config_error_of(#[trigger] configs@[k]) is None)
                &&& (forall|k: int|
                    0 <= k < configs@.len() ==> (#[trigger] set.spec_names()[k])
                        == configs@[k].name@)
                &&& (forall|k: int|
                    0 <= k < configs@.len() ==> kind_matches(
                        #[trigger] configs@[k],
                        set.kinds()[k],
                    ))
            },
            Err(e) => exists|j: int|
                {
                    &&& 0 <= j < configs@.len()
                    &&& config_error_of(#[trigger] configs@[j]) == Some(e)
                    &&& (forall|k: int| 0 <= k < j ==> config_error_of(#[trigger] configs@[k]) is None)
                },
        }),
{
    let n = configs.len();
    let mut set = NotifierSet::new();
    let mut i: usize = 0;
    while i < n
        invariant
            i <= n,
            n == configs@.len(),
            set.entries_seq().len() == i,
            forall|k: int| 0 <= k < i ==> config_error_of(#[trigger] configs@[k]) is None,
            forall|k: int|
                0 <= k < i ==> (#[trigger] set.spec_names()[k]) == configs@[k].name@,
            forall|k: int|
                0 <= k < i ==> kind_matches(#[trigger] configs@[k], set.kinds()[k]),
        decreases n - i,
    {
        let c = &configs[i];
        let kind: NotifierKind;
        if c.notifier_type == "print".to_owned() {
            kind = NotifierKind::Print(PrintNotifier::new());
        } else if c.notifier_type == "telegram".to_owned() {
            let token = match &c.token {
                Some(t) => t.clone(),
                None => {
                    return Err(ConfigError::MissingToken);
                },
            };
            let chat_text = match &c.chat_id {
                Some(t) => t.clone(),
                None => {
                    return Err(ConfigError::MissingChatId);
                },
            };
            let chat_id = match parse_i64(chat_text.as_str()) {
                Some(v) => v,
                None => {
                    return Err(ConfigError::InvalidChatId);
                },
            };
            kind = NotifierKind::Telegram(TelegramNotifier::new(token, chat_id));
        } else {
            return Err(ConfigError::InvalidNotifierType);
        }
        let ghost preset = set;
        let entry_name = c.name.clone();
        set.add(entry_name, kind);
        proof {
            assert(set.entries_seq() == preset.entries_seq().push((entry_name, kind)));
            assert forall|k: int| 0 <= k < i + 1 implies {
                &&& (#[trigger] set.spec_names()[k]) == configs@[k].name@
                &&& kind_matches(configs@[k], set.kinds()[k])
            } by {
                assert(set.spec_names()[k] == set.entries_seq()[k].0@);
                assert(set.kinds()[k] == set.entries_seq()[k].1);
                if k < i {
                    assert(set.entries_seq()[k] == preset.entries_seq()[k]);
                    assert(preset.spec_names()[k] == preset.entries_seq()[k].0@);
                    assert(preset.kinds()[k] == preset.entries_seq()[k].1);
                } else {
                    assert(set.entries_seq()[k] == (entry_name, kind));
                }
            }
        }
        i = i + 1;
    }
    Ok(set)
}

/// Whether the name filter selects this flow: an empty filter selects
/// every flow; otherwise only a named flow whose name is listed.
pub fn select_flow(flow_name: &Option<String>, flow_names: &Vec<String>) -> (r: bool)
    ensures
        r == (flow_names@.len() == 0 || (match *flow_name {
            Some(n) => flow_names@.map_values(|s: String| s@).contains(n@),
            None => false,
        })),
{
    if flow_names.len() == 0 {
        return true;
    }
    match flow_name {
        None => false,
        Some(name) => {
            let ghost listed = flow_names@.map_values(|s: String| s@);
            let n = flow_names.len();
            let mut i: usize = 0;
            while i < n
                invariant
                    i <= n,
                    n == flow_names.len(),
                    listed =~= flow_names@.map_values(|s: String| s@),
                    *flow_name == Some(*name),
                    forall|j: int| 0 <= j < i ==> listed[j] != name@,
                decreases n - i,
            {
                if flow_names[i] == *name {
                    assert(listed[i as int] == name@);
                    return true;
                }
                assert(listed[i as int] == flow_names@[i as int]@);
                i = i + 1;
            }
            false
        },
    }
}

/// Begins one run of a flow: its notifier set, built from the declared
/// configs, and a fresh machine over its root steps, ready for the
/// first `Event::Tick`. The embedding program performs the machine's
/// actions — delivering notifications through the returned set — and
/// schedules runs as the flow's trigger demands.
pub fn start(flow: &YamlWorkflow) -> (r: Result<(NotifierSet, Machine), ConfigError>)
    ensures
        (match r {
            Ok((set, m)) => {
                &&& m@.wf()
                &&& m@.phase == PhaseV::Ready
                &&& m@.vars == Map::<Seq<char>, Seq<char>>::empty()
                &&& m@.last is None
                &&& m@.frames =~= seq![
                    (Frame { steps: flow.steps, index: 0, ctx: FrameCtx::Root }),
                ]
                &&& m@.flow_fallback == flow.upon_failure
                &&& m@.names =~= set.spec_names()
                &&& set.entries_seq().len() == flow.notifiers@.len()
                &&& (forall|k: int|
                    0 <= k < flow.notifiers@.len() ==> config_error_of(
                        #[trigger] flow.notifiers@[k],
                    ) is None)
                &&& (forall|k: int|
                    0 <= k < flow.notifiers@.len() ==> (#[trigger] set.spec_names()[k])
                        == flow.notifiers@[k].name@)
                &&& (forall|k: int|
                    0 <= k < flow.notifiers@.len() ==> kind_matches(
                        #[trigger] flow.notifiers@[k],
                        set.kinds()[k],
                    ))
            },
            Err(e) => exists|j: int|
                {
                    &&& 0 <= j < flow.notifiers@.len()
                    &&& config_error_of(#[trigger] flow.notifiers@[j]) == Some(e)
                    &&& (forall|k: int|
                        0 <= k < j ==> config_error_of(#[trigger] flow.notifiers@[k]) is None)
                },
        }),
{
    let set = match build_notifiers(&flow.notifiers) {
        Ok(s) => s,
        Err(e) => {
            return Err(e);
        },
    };
    let names = set.names();
    let machine = Machine::new(flow, names);
    Ok((set, machine))
}

} // verus!
