use vstd::prelude::*;
use std::io::Write;
use crate::errors::FlowError;

verus! {

/// Delivers a message through the Telegram transport, using a bot
/// token and a chat id.
pub struct TelegramNotifier {
    token: String,
    chat_id: i64,
}

/// Relies on telegram_notifyrs::send_message and ureq::Response::error:
/// the message is delivered over the network; whether that failed
/// depends on the network, so nothing is promised of the result.
#[verifier::external_body]
fn telegram_send_failed(token: &String, chat_id: i64, msg: &str) -> bool {
    telegram_notifyrs::send_message(msg.to_string(), token.as_str(), chat_id).error()
}

/// Relies on std::io::Stdout and the writeln macro: prints one line;
/// nothing is observable of it inside the library.
#[verifier::external_body]
fn print_line(msg: &str) {
    let mut out = std::io::stdout();
    let _ = writeln!(out, "{}", msg);
}

impl TelegramNotifier {
    pub closed spec fn spec_token(self) -> Seq<char> {
        self.token@
    }

    pub closed spec fn spec_chat_id(self) -> i64 {
        self.chat_id
    }

    pub fn new(token: String, chat_id: i64) -> (r: Self)
        ensures
            r.spec_token() == token@,
            r.spec_chat_id() == chat_id,
    {
        TelegramNotifier { token, chat_id }
    }

    /// A notifier with empty credentials; the embedding program fills
    /// in real ones (for instance from its environment) before use.
    pub fn default() -> (r: Self)
        ensures
            r.spec_token() == Seq::<char>::empty(),
            r.spec_chat_id() == 0,
    {
        TelegramNotifier { token: String::new(), chat_id: 0 }
    }

    /// Sends the message; the transport decides success.
    pub fn send_message(&self, msg: &str) -> (r: Result<(), FlowError>)
        ensures
            (r matches Err(e) ==> e == FlowError::OperationFailed),
    {
        if telegram_send_failed(&self.token, self.chat_id, msg) {
            Err(FlowError::OperationFailed)
        } else {
            Ok(())
        }
    }

    /// Starts a chain: this notifier, then the other.
    pub fn chain_with(self, other: NotifierKind) -> (r: NotifierChain)
        ensures
            r.members() =~= seq![NotifierKind::Telegram(self), other],
    {
        NotifierChain::new().chain_with(NotifierKind::Telegram(self)).chain_with(other)
    }
}

/// Prints every message to standard output; never fails.
pub struct PrintNotifier {}

impl PrintNotifier {
    pub fn new() -> Self {
        PrintNotifier {  }
    }

    pub fn send_message(&self, msg: &str) -> (r: Result<(), FlowError>)
        ensures
            r is Ok,
    {
        print_line(msg);
        Ok(())
    }

    /// Starts a chain: this notifier, then the other.
    pub fn chain_with(self, other: NotifierKind) -> (r: NotifierChain)
        ensures
            r.members() =~= seq![NotifierKind::Print(self), other],
    {
        NotifierChain::new().chain_with(NotifierKind::Print(self)).chain_with(other)
    }
}

/// Keeps every message it is sent, for tests and diagnostics.
pub struct MemoryNotifier {
    saved_messages: Vec<String>,
}

impl MemoryNotifier {
    /// The messages delivered so far, oldest first.
    pub closed spec fn messages(self) -> Seq<Seq<char>> {
        self.saved_messages@.map_values(|s: String| s@)
    }

    pub fn new() -> (r: Self)
        ensures
            r.messages() =~= Seq::<Seq<char>>::empty(),
    {
        MemoryNotifier { saved_messages: Vec::new() }
    }

    pub fn send_message(&mut self, msg: &str) -> (r: Result<(), FlowError>)
        ensures
            r is Ok,
            final(self).messages() =~= old(self).messages().push(msg@),
    {
        self.saved_messages.push(msg.to_owned());
        proof {
            assert(self.messages() =~= old(self).messages().push(msg@));
        }
        Ok(())
    }

    /// Starts a chain: this notifier, then the other.
    pub fn chain_with(self, other: NotifierKind) -> (r: NotifierChain)
        ensures
            r.members() =~= seq![NotifierKind::Memory(self), other],
    {
        NotifierChain::new().chain_with(NotifierKind::Memory(self)).chain_with(other)
    }

    pub fn get_saved_messages(&self) -> (r: Vec<String>)
        ensures
            r@.map_values(|s: String| s@) =~= self.messages(),
    {
        let n = self.saved_messages.len();
        let mut out: Vec<String> = Vec::new();
        let mut i: usize = 0;
        while i < n
            invariant
                i <= n,
                n == self.saved_messages.len(),
                out@.len() == i,
                forall|k: int| 0 <= k < i ==> (#[trigger] out@[k])@ == self.saved_messages@[k]@,
            decreases n - i,
        {
            out.push(self.saved_messages[i].clone());
            i = i + 1;
        }
        proof {
            assert(out@.map_values(|s: String| s@) =~= self.messages());
        }
        out
    }
}

/// One delivery channel of any kind.
pub enum NotifierKind {
    Print(PrintNotifier),
    Memory(MemoryNotifier),
    Telegram(TelegramNotifier),
}

impl NotifierKind {
    /// The messages this channel has kept (empty unless in-memory).
    pub open spec fn messages(self) -> Seq<Seq<char>> {
        match self {
            NotifierKind::Memory(m) => m.messages(),
            _ => Seq::empty(),
        }
    }

    pub fn send_message(&mut self, msg: &str) -> (r: Result<(), FlowError>)
        ensures
            sent_one(*old(self), *final(self), msg@),
            (r matches Err(e) ==> e == FlowError::OperationFailed),
            (old(self) matches NotifierKind::Telegram(_) || r is Ok),
    {
        match self {
            NotifierKind::Print(p) => p.send_message(msg),
            NotifierKind::Memory(m) => m.send_message(msg),
            NotifierKind::Telegram(t) => t.send_message(msg),
        }
    }
}

/// How one channel relates to its old self after a message was sent
/// to it: an in-memory channel keeps the message, the others are
/// unchanged.
pub open spec fn sent_one(a: NotifierKind, b: NotifierKind, msg: Seq<char>) -> bool {
    match a {
        NotifierKind::Memory(ma) => (b matches NotifierKind::Memory(mb) && mb.messages()
            =~= ma.messages().push(msg)),
        _ => b == a,
    }
}

/// Sends every message to an ordered sequence of channels, giving up
/// at the first failure (the remaining channels are not tried).
pub struct NotifierChain {
    notifiers: Vec<NotifierKind>,
}

impl NotifierChain {
    pub closed spec fn members(self) -> Seq<NotifierKind> {
        self.notifiers@
    }

    pub fn new() -> (r: Self)
        ensures
            r.members() =~= Seq::<NotifierKind>::empty(),
    {
        NotifierChain { notifiers: Vec::new() }
    }

    /// The default chain holds one Telegram notifier with placeholder
    /// credentials.
    pub fn default() -> (r: Self)
        ensures
            r.members().len() == 1,
            r.members()[0] matches NotifierKind::Telegram(_),
    {
        NotifierChain::new().chain_with(NotifierKind::Telegram(TelegramNotifier::default()))
    }

    pub fn chain_with(self, notifier: NotifierKind) -> (r: Self)
        ensures
            r.members() =~= self.members().push(notifier),
    {
        let mut notifiers = self.notifiers;
        notifiers.push(notifier);
        NotifierChain { notifiers }
    }

    pub fn len(&self) -> (n: usize)
        ensures
            n == self.members().len(),
    {
        self.notifiers.len()
    }

    /// Fail-fast delivery: members before the first failing one get
    /// the message, the failing one and those after it stay unchanged.
    pub fn send_message(&mut self, msg: &str) -> (r: Result<(), FlowError>)
        ensures
            final(self).members().len() == old(self).members().len(),
            (match r {
                Ok(()) => forall|k: int|
                    0 <= k < old(self).members().len() ==> sent_one(
                        old(self).members()[k],
                        #[trigger] final(self).members()[k],
                        msg@,
                    ),
                Err(e) => {
                    &&& e == FlowError::OperationFailed
                    &&& exists|j: int|
                        {
                            &&& 0 <= j < old(self).members().len()
                            &&& (#[trigger] old(self).members()[j]) matches NotifierKind::Telegram(
                                _,
                            )
                            &&& (forall|k: int|
                                0 <= k < j ==> sent_one(
                                    old(self).members()[k],
                                    #[trigger] final(self).members()[k],
                                    msg@,
                                ))
                            &&& (forall|k: int|
                                j <= k < old(self).members().len() ==> (
                                #[trigger] final(self).members()[k]) == old(self).members()[k])
                        }
                },
            }),
    {
        let n = self.notifiers.len();
        let mut i: usize = 0;
        while i < n
            invariant
                i <= n,
                n == self.notifiers.len(),
                n == old(self).members().len(),
                forall|k: int|
                    0 <= k < i ==> sent_one(
                        old(self).members()[k],
                        #[trigger] self.notifiers@[k],
                        msg@,
                    ),
                forall|k: int|
                    i <= k < n ==> (#[trigger] self.notifiers@[k]) == old(self).members()[k],
            decreases n - i,
        {
            let outcome = send_at(&mut self.notifiers, i, msg);
            if let Err(e) = outcome {
                return Err(e);
            }
            i = i + 1;
        }
        Ok(())
    }
}

/// Sends the message to the channel at position `i`, leaving the rest
/// of the vector unchanged.
fn send_at(v: &mut Vec<NotifierKind>, i: usize, msg: &str) -> (r: Result<(), FlowError>)
    requires
        i < old(v)@.len(),
    ensures
        final(v)@.len() == old(v)@.len(),
        sent_one(old(v)@[i as int], final(v)@[i as int], msg@),
        forall|k: int| 0 <= k < old(v)@.len() && k != i ==> (#[trigger] final(v)@[k]) == old(v)@[k],
        (r matches Err(e) ==> e == FlowError::OperationFailed),
        (old(v)@[i as int] matches NotifierKind::Telegram(_) || r is Ok),
{
    let mut current = NotifierKind::Print(PrintNotifier {  });
    v.set_and_swap(i, &mut current);
    let r = current.send_message(msg);
    v.set_and_swap(i, &mut current);
    proof {
        assert(v@ =~= old(v)@.update(i as int, v@[i as int]));
    }
    r
}

} // verus!
