//! Destinations for the monitor's report lines.
use vstd::prelude::*;

verus! {

/// Something that takes the monitor's report lines.
pub trait Logger {
    /// A fresh logger.
    fn new() -> Self where Self: Sized;

    /// Takes one report line.
    fn log(&mut self, message: &str);
}

/// A logger that keeps every line it is given, in order.
pub struct MemoryLogger {
    entries: Vec<String>,
}

impl View for MemoryLogger {
    type V = Seq<Seq<char>>;

    /// The lines logged so far, oldest first.
    closed spec fn view(&self) -> Seq<Seq<char>> {
        self.entries.deep_view()
    }
}

impl MemoryLogger {
    /// A logger that holds no line yet.
    pub fn new() -> (logger: Self)
        ensures
            logger@ == Seq::<Seq<char>>::empty(),
    {
        let logger = MemoryLogger { entries: Vec::new() };
        assert(logger@ =~= Seq::<Seq<char>>::empty());
        logger
    }

    /// A copy of the lines logged so far, oldest first.
    pub fn get_entries(&self) -> (entries: Vec<String>)
        ensures
            entries.deep_view() == self@,
    {
        let entries = self.entries.clone();
        assert(entries.deep_view() =~= self.entries.deep_view());
        entries
    }
}

/// The lines a memory logger holds after holding `entries` and then being
/// given `messages`, one `log` call each, in order.
pub open spec fn after_logging(entries: Seq<Seq<char>>, messages: Seq<Seq<char>>) -> Seq<Seq<char>>
    decreases messages.len(),
{
    if messages.len() == 0 {
        entries
    } else {
        after_logging(entries, messages.drop_last()).push(messages.last())
    }
}

/// A memory logger's lines only grow: logging any messages keeps the lines it
/// held, unchanged and in order, and adds the messages after them in the
/// order they were logged. `get_entries` changes nothing, so every copy it
/// gives is a prefix of every later one.
pub proof fn law_entries_only_grow(entries: Seq<Seq<char>>, messages: Seq<Seq<char>>)
    ensures
        after_logging(entries, messages) == entries + messages,
        after_logging(entries, messages).subrange(0, entries.len() as int) == entries,
    decreases messages.len(),
{
    if messages.len() > 0 {
        law_entries_only_grow(entries, messages.drop_last());
        assert(entries + messages =~= (entries + messages.drop_last()).push(messages.last()));
    } else {
        assert(entries + messages =~= entries);
    }
    assert((entries + messages).subrange(0, entries.len() as int) =~= entries);
}

impl Logger for MemoryLogger {
    fn new() -> (logger: Self)
        ensures
            logger@ == Seq::<Seq<char>>::empty(),
    {
        MemoryLogger::new()
    }

    fn log(&mut self, message: &str)
        ensures
            final(self)@ == old(self)@.push(message@),
    {
        self.entries.push(message.to_string());
        assert(self.entries.deep_view() =~= old(self).entries.deep_view().push(message@));
    }
}

} // verus!
