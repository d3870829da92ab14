//! The signals this crate knows by name, and those that ask a process to
//! terminate.

use signal_hook::consts::{
    SIGABRT, SIGALRM, SIGBUS, SIGCHLD, SIGCONT, SIGFPE, SIGHUP, SIGILL, SIGINT, SIGIO, SIGKILL,
    SIGPIPE, SIGPROF, SIGQUIT, SIGSEGV, SIGSTOP, SIGSYS, SIGTERM, SIGTRAP, SIGTSTP, SIGTTIN,
    SIGTTOU, SIGURG, SIGUSR1, SIGUSR2, SIGVTALRM, SIGWINCH, SIGXCPU, SIGXFSZ, TERM_SIGNALS,
};
use indexmap::IndexMap;
use vstd::prelude::*;

verus! {

/// The numbers of the named signals, as Linux assigns them on every
/// architecture but MIPS and SPARC.
pub open spec fn known_numbers() -> Seq<i32> {
    seq![
        6i32, 14, 7, 17, 18, 8, 1, 4, 2, 29, 9, 13, 27, 3, 11, 19, 31, 15, 5, 20, 21, 22, 23, 10,
        12, 26, 28, 24, 25,
    ]
}

/// The names of the named signals, in the order of [`known_numbers`].
pub open spec fn known_names() -> Seq<&'static str> {
    seq![
        "SIGABRT", "SIGALRM", "SIGBUS", "SIGCHLD", "SIGCONT", "SIGFPE", "SIGHUP", "SIGILL",
        "SIGINT", "SIGIO", "SIGKILL", "SIGPIPE", "SIGPROF", "SIGQUIT", "SIGSEGV", "SIGSTOP",
        "SIGSYS", "SIGTERM", "SIGTRAP", "SIGTSTP", "SIGTTIN", "SIGTTOU", "SIGURG", "SIGUSR1",
        "SIGUSR2", "SIGVTALRM", "SIGWINCH", "SIGXCPU", "SIGXFSZ",
    ]
}

/// The table that is built by entering each number with the name at its
/// place, in order; of two entries for one number the later one counts.
pub open spec fn table_of(numbers: Seq<i32>, names: Seq<&'static str>) -> Map<i32, &'static str>
    decreases numbers.len(),
{
    if numbers.len() == 0 {
        Map::empty()
    } else {
        table_of(numbers.drop_last(), names.drop_last()).insert(numbers.last(), names.last())
    }
}

/// The table of the named signals.
pub open spec fn known_table() -> Map<i32, &'static str> {
    table_of(known_numbers(), known_names())
}

/// The name of `signal`, if the table lists its number.
pub open spec fn name_of(signal: i32) -> Option<&'static str> {
    if known_table().dom().contains(signal) {
        Some(known_table()[signal])
    } else {
        None
    }
}

/// The text that stands in the place of a name for a signal that the table
/// does not list.
pub open spec fn unnamed() -> &'static str {
    "UNKNOWN"
}

/// The name of `signal`, or [`unnamed`] where it has none.
pub open spec fn text_of(signal: i32) -> &'static str {
    match name_of(signal) {
        Some(name) => name,
        None => unnamed(),
    }
}

/// The signals that commonly request the shutdown of a process: `SIGTERM`,
/// `SIGQUIT` and `SIGINT`, in that order.
pub open spec fn termination_numbers() -> Seq<i32> {
    seq![15i32, 3, 2]
}

/// Whether `signal` is one of [`termination_numbers`].
pub open spec fn is_termination(signal: i32) -> bool {
    termination_numbers().contains(signal)
}

/// A table holds the numbers that were entered, and no others.
pub proof fn lemma_table_lists(numbers: Seq<i32>, names: Seq<&'static str>, number: i32)
    ensures
        table_of(numbers, names).dom().contains(number) <==> numbers.contains(number),
    decreases numbers.len(),
{
    if numbers.len() > 0 {
        lemma_table_lists(numbers.drop_last(), names.drop_last(), number);
        if numbers.contains(number) && numbers.last() != number {
            let place = choose|place: int| 0 <= place < numbers.len() && numbers[place] == number;
            assert(numbers.drop_last()[place] == number);
        }
    }
}

/// A table maps a number to the name that was entered with it, where the
/// number was not entered again later.
pub proof fn lemma_table_maps(numbers: Seq<i32>, names: Seq<&'static str>, index: int)
    requires
        numbers.len() == names.len(),
        0 <= index < numbers.len(),
        forall|later: int| index < later < numbers.len() ==> numbers[later] != numbers[index],
    ensures
        table_of(numbers, names).dom().contains(numbers[index]),
        table_of(numbers, names)[numbers[index]] == names[index],
    decreases numbers.len(),
{
    if index < numbers.len() - 1 {
        lemma_table_maps(numbers.drop_last(), names.drop_last(), index);
    }
}

/// The table lists no number twice, so each number in it has the name that
/// stands at its own place.
pub proof fn lemma_name_at(index: int)
    requires
        0 <= index < known_numbers().len(),
    ensures
        name_of(known_numbers()[index]) == Some(known_names()[index]),
{
    lemma_table_maps(known_numbers(), known_names(), index);
}

/// A signal whose number the table does not list has no name.
pub proof fn lemma_unlisted(signal: i32)
    requires
        !known_numbers().contains(signal),
    ensures
        name_of(signal) is None,
        text_of(signal) == unnamed(),
{
    lemma_table_lists(known_numbers(), known_names(), signal);
}

/// The three signals that request a shutdown have their names.
pub proof fn lemma_termination_signals_are_named()
    ensures
        name_of(15) == Some("SIGTERM"),
        name_of(3) == Some("SIGQUIT"),
        name_of(2) == Some("SIGINT"),
{
    lemma_name_at(17);
    lemma_name_at(13);
    lemma_name_at(8);
}

/// A table from the numbers of signals to their names.
pub type SignalTable = IndexMap<i32, &'static str>;

/// The name of a signal, as the table holds it.
pub type SignalName = &'static str;

/// What a table of signal names maps each number to.
pub uninterp spec fn names_in(table: SignalTable) -> Map<i32, SignalName>;

/// `IndexMap::new`. Trusted: the new table maps nothing; it is the table of
/// no entries.
#[verifier::external_body]
fn table_new() -> (table: SignalTable)
    ensures
        names_in(table) == table_of(Seq::empty(), Seq::empty()),
{
    IndexMap::new()
}

/// `IndexMap::insert`. Trusted: afterwards the table maps `number` to
/// `name`, whether it listed the number before or not, and the rest as
/// before.
#[verifier::external_body]
fn table_insert(table: &mut SignalTable, number: i32, name: SignalName)
    ensures
        names_in(*final(table)) == names_in(*old(table)).insert(number, name),
{
    table.insert(number, name);
}

/// `IndexMap::get`. Trusted: it gives what the table maps `number` to, and
/// nothing for a number that the table does not list.
#[verifier::external_body]
fn table_get(table: &SignalTable, number: i32) -> (name: Option<SignalName>)
    ensures
        name == (if names_in(*table).dom().contains(number) {
            Some(names_in(*table)[number])
        } else {
            None
        }),
{
    table.get(&number).copied()
}

/// Reads the signal numbers that `signal_hook::consts` re-exports from `libc`,
/// in the order of [`known_names`]. Trusted: their values are those that
/// `libc` gives them on Linux, on every architecture but MIPS and SPARC.
#[verifier::external_body]
fn signal_numbers() -> (numbers: Vec<i32>)
    ensures
        numbers@ == known_numbers(),
{
    vec![
        SIGABRT, SIGALRM, SIGBUS, SIGCHLD, SIGCONT, SIGFPE, SIGHUP, SIGILL, SIGINT, SIGIO,
        SIGKILL, SIGPIPE, SIGPROF, SIGQUIT, SIGSEGV, SIGSTOP, SIGSYS, SIGTERM, SIGTRAP, SIGTSTP,
        SIGTTIN, SIGTTOU, SIGURG, SIGUSR1, SIGUSR2, SIGVTALRM, SIGWINCH, SIGXCPU, SIGXFSZ,
    ]
}

/// Copies `signal_hook::consts::TERM_SIGNALS`. Trusted: the slice holds
/// `SIGTERM`, `SIGQUIT` and `SIGINT`, whose numbers are 15, 3 and 2.
#[verifier::external_body]
fn term_signals() -> (signals: Vec<i32>)
    ensures
        signals@ == termination_numbers(),
{
    TERM_SIGNALS.to_vec()
}

/// The names of the named signals, in the order of the table.
fn signal_names() -> (names: Vec<&'static str>)
    ensures
        names@ == known_names(),
{
    let names = vec![
        "SIGABRT", "SIGALRM", "SIGBUS", "SIGCHLD", "SIGCONT", "SIGFPE", "SIGHUP", "SIGILL",
        "SIGINT", "SIGIO", "SIGKILL", "SIGPIPE", "SIGPROF", "SIGQUIT", "SIGSEGV", "SIGSTOP",
        "SIGSYS", "SIGTERM", "SIGTRAP", "SIGTSTP", "SIGTTIN", "SIGTTOU", "SIGURG", "SIGUSR1",
        "SIGUSR2", "SIGVTALRM", "SIGWINCH", "SIGXCPU", "SIGXFSZ",
    ];
    names
}

/// Builds the table of the named signals: each number that `signal_hook`
/// gives is entered with its name.
fn signal_table() -> (table: SignalTable)
    ensures
        names_in(table) == known_table(),
{
    let numbers = signal_numbers();
    let names = signal_names();
    let mut table = table_new();
    let mut index: usize = 0;
    while index < numbers.len()
        invariant
            numbers@ == known_numbers(),
            names@ == known_names(),
            numbers.len() == names.len(),
            index <= numbers.len(),
            names_in(table) == table_of(numbers@.take(index as int), names@.take(index as int)),
        decreases numbers.len() - index,
    {
        table_insert(&mut table, numbers[index], names[index]);
        proof {
            assert(numbers@.take(index as int + 1).drop_last() =~= numbers@.take(index as int));
            assert(names@.take(index as int + 1).drop_last() =~= names@.take(index as int));
        }
        index += 1;
    }
    proof {
        assert(numbers@.take(index as int) =~= numbers@);
        assert(names@.take(index as int) =~= names@);
    }
    table
}

/// Looks `signal` up in the table of named signals.
pub fn signal_name(signal: i32) -> (name: Option<&'static str>)
    ensures
        name == name_of(signal),
{
    let table = signal_table();
    table_get(&table, signal)
}

/// The name of `signal`, or the text that stands for a signal without one.
pub fn signal_text(signal: i32) -> (text: &'static str)
    ensures
        text == text_of(signal),
{
    match signal_name(signal) {
        Some(name) => name,
        None => "UNKNOWN",
    }
}

/// Whether `signal` commonly requests the shutdown of a process.
pub fn is_term_signal(signal: i32) -> (found: bool)
    ensures
        found == is_termination(signal),
{
    let signals = term_signals();
    let mut index: usize = 0;
    while index < signals.len()
        invariant
            signals@ == termination_numbers(),
            index <= signals.len(),
            forall|earlier: int| 0 <= earlier < index ==> signals@[earlier] != signal,
        decreases signals.len() - index,
    {
        if signals[index] == signal {
            return true;
        }
        index += 1;
    }
    false
}

} // verus!
