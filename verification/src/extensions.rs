//! The search for extensions: which directories are read, which of the libraries found
//! there are taken in, and what makes the search give up.
//!
//! The program performs the step that [`ExtensionScan::step`] asks for (create a
//! directory, read its next entry, open a library) and reports what came of it to
//! [`ExtensionScan::advance`].

use vstd::prelude::*;

verus! {

/// Extensions by name. A name that is registered again takes the later extension.
pub struct ExtensionMap<T> {
    entries: Vec<(String, T)>,
}

impl<T> View for ExtensionMap<T> {
    type V = Map<Seq<char>, T>;

    closed spec fn view(&self) -> Map<Seq<char>, T> {
        entries_map(self.entries@)
    }
}

/// `name` stands at place `i` of a list of named values.
pub open spec fn named_at<T>(entries: Seq<(String, T)>, name: Seq<char>, i: int) -> bool {
    0 <= i < entries.len() && entries[i].0@ == name
}

/// No two of the named values share a name.
pub open spec fn names_distinct<T>(entries: Seq<(String, T)>) -> bool {
    forall|i: int, j: int|
        0 <= i < entries.len() && 0 <= j < entries.len() && entries[i].0@ == entries[j].0@ ==> i
            == j
}

/// The map that a list of named values stands for.
pub open spec fn entries_map<T>(entries: Seq<(String, T)>) -> Map<Seq<char>, T> {
    Map::new(
        |name: Seq<char>| exists|i: int| named_at(entries, name, i),
        |name: Seq<char>| entries[choose|i: int| named_at(entries, name, i)].1,
    )
}

proof fn lemma_entries_map<T>(entries: Seq<(String, T)>, i: int)
    requires
        names_distinct(entries),
        0 <= i < entries.len(),
    ensures
        entries_map(entries).contains_key(entries[i].0@),
        entries_map(entries)[entries[i].0@] == entries[i].1,
{
    let name = entries[i].0@;
    assert(named_at(entries, name, i));
    let j = choose|j: int| named_at(entries, name, j);
    assert(named_at(entries, name, j));
}

/// Replacing the value under a name that stands in the list is an insertion.
proof fn lemma_replaced<T>(entries: Seq<(String, T)>, i: int, entry: (String, T))
    requires
        names_distinct(entries),
        named_at(entries, entry.0@, i),
    ensures
        names_distinct(entries.update(i, entry)),
        entries_map(entries.update(i, entry)) == entries_map(entries).insert(entry.0@, entry.1),
{
    let after = entries.update(i, entry);
    let expected = entries_map(entries).insert(entry.0@, entry.1);
    assert forall|n: Seq<char>| #[trigger]
        entries_map(after).contains_key(n) == expected.contains_key(n) by {
        if entries_map(after).contains_key(n) {
            let j = choose|j: int| named_at(after, n, j);
            assert(named_at(entries, n, j));
        }
        if expected.contains_key(n) {
            let j = if n == entry.0@ {
                i
            } else {
                choose|j: int| named_at(entries, n, j)
            };
            assert(named_at(entries, n, j));
            assert(named_at(after, n, j));
        }
    }
    assert forall|n: Seq<char>| #[trigger]
        entries_map(after).contains_key(n) implies entries_map(after)[n] == expected[n] by {
        let j = choose|j: int| named_at(after, n, j);
        lemma_entries_map(after, j);
        lemma_entries_map(entries, j);
    }
    assert(entries_map(after) =~= expected);
}

/// Appending a value under a name that does not stand in the list is an insertion.
proof fn lemma_appended<T>(entries: Seq<(String, T)>, entry: (String, T))
    requires
        names_distinct(entries),
        forall|i: int| 0 <= i < entries.len() ==> entries[i].0@ != entry.0@,
    ensures
        names_distinct(entries.push(entry)),
        entries_map(entries.push(entry)) == entries_map(entries).insert(entry.0@, entry.1),
{
    let after = entries.push(entry);
    let expected = entries_map(entries).insert(entry.0@, entry.1);
    assert forall|n: Seq<char>| #[trigger]
        entries_map(after).contains_key(n) == expected.contains_key(n) by {
        if entries_map(after).contains_key(n) && n != entry.0@ {
            let j = choose|j: int| named_at(after, n, j);
            assert(named_at(entries, n, j));
        }
        if expected.contains_key(n) {
            let j = if n == entry.0@ {
                entries.len() as int
            } else {
                choose|j: int| named_at(entries, n, j)
            };
            assert(named_at(after, n, j));
        }
    }
    assert forall|n: Seq<char>| #[trigger]
        entries_map(after).contains_key(n) implies entries_map(after)[n] == expected[n] by {
        let j = choose|j: int| named_at(after, n, j);
        lemma_entries_map(after, j);
        if n != entry.0@ {
            lemma_entries_map(entries, j);
        }
    }
    assert(entries_map(after) =~= expected);
}

impl<T> ExtensionMap<T> {
    /// Every name stands once.
    #[verifier::type_invariant]
    spec fn wf(self) -> bool {
        names_distinct(self.entries@)
    }

    /// The map that holds nothing.
    pub fn new() -> (res: Self)
        ensures
            res@ == Map::<Seq<char>, T>::empty(),
    {
        let entries: Vec<(String, T)> = Vec::new();
        assert(entries_map(entries@) =~= Map::<Seq<char>, T>::empty());
        ExtensionMap { entries }
    }

    /// Where `name` stands.
    fn position(&self, name: &String) -> (res: Option<usize>)
        ensures
            match res {
                Some(i) => named_at(self.entries@, name@, i as int),
                None => forall|i: int| 0 <= i < self.entries@.len() ==> self.entries@[i].0@ != name@,
            },
    {
        let mut i: usize = 0;
        while i < self.entries.len()
            invariant
                i <= self.entries.len(),
                forall|j: int| 0 <= j < i ==> self.entries@[j].0@ != name@,
            decreases self.entries.len() - i,
        {
            if self.entries[i].0 == *name {
                return Some(i);
            }
            i = i + 1;
        }
        None
    }

    /// Registers `extension` under `name`, in place of what stood there.
    pub fn insert(&mut self, name: String, extension: T)
        ensures
            final(self)@ == old(self)@.insert(name@, extension),
    {
        proof {
            use_type_invariant(&*self);
        }
        let position: Option<usize> = self.position(&name);
        let mut entries: Vec<(String, T)> = Vec::new();
        std::mem::swap(&mut self.entries, &mut entries);
        match position {
            Some(i) => {
                proof {
                    lemma_replaced(entries@, i as int, (name, extension));
                }
                entries.set(i, (name, extension));
            },
            None => {
                proof {
                    lemma_appended(entries@, (name, extension));
                }
                entries.push((name, extension));
            },
        }
        self.entries = entries;
    }

    /// Hands the extensions out with their names, each name once.
    pub fn into_entries(self) -> (res: Vec<(String, T)>)
        ensures
            names_distinct(res@),
            entries_map(res@) == self@,
    {
        proof {
            use_type_invariant(&self);
        }
        self.entries
    }
}

/// The step of the search that the program has to perform next.
#[derive(Clone, Copy, Debug, PartialEq, Eq, Structural)]
pub enum ScanStep {
    /// Create the user's extension directory, with its parents, if it is missing.
    CreateUserDirectory,
    /// Open the user's extension directory for reading.
    OpenUserDirectory,
    /// Take the next entry of the user's directory and open it as an extension.
    NextUserEntry,
    /// Ask the extension just opened, one of the user's, for its name.
    NameUserExtension,
    /// Find the directory of the extensions that come with the client.
    LocateBuiltInDirectory,
    /// Open that directory for reading.
    OpenBuiltInDirectory,
    /// Take the next entry of that directory and open it as an extension.
    NextBuiltInEntry,
    /// Ask the extension just opened, one that comes with the client, for its name.
    NameBuiltInExtension,
    /// The search is over and its result stands.
    Complete,
    /// The search gave up and has no result.
    Aborted,
}

/// What came of a step.
pub enum ScanEvent<T> {
    /// The directory was created, found or opened.
    Succeeded,
    /// The directory could not be created, found or opened, or its next entry not read.
    Failed,
    /// The entry is no extension that can be opened.
    LoadFailed,
    /// The entry was opened; it was built with these versions of the toolchain.
    Loaded { cargo_version: String, rustc_version: String },
    /// The extension just opened goes by this name.
    Named { name: String, extension: T },
    /// The directory has no further entry.
    EndOfDirectory,
}

/// A search as far as it has got.
#[verifier::ext_equal]
pub ghost struct ScanModel<T> {
    /// Whether the extensions that come with the client are searched too.
    pub production: bool,
    /// The version of cargo that an extension has to be built with.
    pub cargo_version: Seq<char>,
    /// The version of rustc that an extension has to be built with.
    pub rustc_version: Seq<char>,
    /// The step to perform next.
    pub step: ScanStep,
    /// The extensions taken in so far.
    pub found: Map<Seq<char>, T>,
}

/// `event` is something that can come of `step`.
pub open spec fn answers<T>(step: ScanStep, event: ScanEvent<T>) -> bool {
    match step {
        ScanStep::CreateUserDirectory
        | ScanStep::OpenUserDirectory
        | ScanStep::LocateBuiltInDirectory
        | ScanStep::OpenBuiltInDirectory => event is Succeeded || event is Failed,
        ScanStep::NextUserEntry | ScanStep::NextBuiltInEntry => {
            event is Failed || event is LoadFailed || event is Loaded || event is EndOfDirectory
        },
        ScanStep::NameUserExtension | ScanStep::NameBuiltInExtension => event is Named,
        ScanStep::Complete | ScanStep::Aborted => false,
    }
}

impl<T> ScanModel<T> {
    /// The search before its first step.
    pub open spec fn start(production: bool, cargo_version: Seq<char>, rustc_version: Seq<char>) -> Self {
        ScanModel {
            production,
            cargo_version,
            rustc_version,
            step: ScanStep::CreateUserDirectory,
            found: Map::empty(),
        }
    }

    /// `event` reports an extension that was built with the versions the search asks for.
    pub open spec fn compatible(self, event: ScanEvent<T>) -> bool {
        event matches ScanEvent::Loaded { cargo_version, rustc_version } && cargo_version@
            == self.cargo_version && rustc_version@ == self.rustc_version
    }

    /// The step that follows `event`.
    pub open spec fn step_after(self, event: ScanEvent<T>) -> ScanStep {
        if event is Failed {
            ScanStep::Aborted
        } else {
            match self.step {
                ScanStep::CreateUserDirectory => ScanStep::OpenUserDirectory,
                ScanStep::OpenUserDirectory => ScanStep::NextUserEntry,
                ScanStep::NextUserEntry => {
                    if event is EndOfDirectory {
                        if self.production {
                            ScanStep::LocateBuiltInDirectory
                        } else {
                            ScanStep::Complete
                        }
                    } else if self.compatible(event) {
                        ScanStep::NameUserExtension
                    } else {
                        ScanStep::NextUserEntry
                    }
                },
                ScanStep::NameUserExtension => ScanStep::NextUserEntry,
                ScanStep::LocateBuiltInDirectory => ScanStep::OpenBuiltInDirectory,
                ScanStep::OpenBuiltInDirectory => ScanStep::NextBuiltInEntry,
                ScanStep::NextBuiltInEntry => {
                    if event is EndOfDirectory {
                        ScanStep::Complete
                    } else if self.compatible(event) {
                        ScanStep::NameBuiltInExtension
                    } else {
                        ScanStep::NextBuiltInEntry
                    }
                },
                ScanStep::NameBuiltInExtension => ScanStep::NextBuiltInEntry,
                ScanStep::Complete => ScanStep::Complete,
                ScanStep::Aborted => ScanStep::Aborted,
            }
        }
    }

    /// The search once `event` has been reported.
    pub open spec fn advanced(self, event: ScanEvent<T>) -> Self {
        ScanModel {
            step: self.step_after(event),
            found: match event {
                ScanEvent::Named { name, extension } => self.found.insert(name@, extension),
                _ => self.found,
            },
            ..self
        }
    }

    /// What the search has to show for itself: the extensions taken in, unless it gave up.
    pub open spec fn result(self) -> Option<Map<Seq<char>, T>> {
        if self.step is Complete {
            Some(self.found)
        } else {
            None
        }
    }

    /// The search once all of `events` have been reported, in order.
    pub open spec fn run(self, events: Seq<ScanEvent<T>>) -> Self
        decreases events.len(),
    {
        if events.len() == 0 {
            self
        } else {
            self.run(events.drop_last()).advanced(events.last())
        }
    }

    /// Each of `events` is something that can come of the step it answers.
    pub open spec fn plays(self, events: Seq<ScanEvent<T>>) -> bool {
        forall|i: int|
            #![trigger events[i]]
            0 <= i < events.len() ==> answers(self.run(events.take(i)).step, events[i])
    }
}

/// A search for extensions.
pub struct ExtensionScan<T> {
    production: bool,
    cargo_version: String,
    rustc_version: String,
    step: ScanStep,
    found: ExtensionMap<T>,
}

impl<T> View for ExtensionScan<T> {
    type V = ScanModel<T>;

    closed spec fn view(&self) -> ScanModel<T> {
        ScanModel {
            production: self.production,
            cargo_version: self.cargo_version@,
            rustc_version: self.rustc_version@,
            step: self.step,
            found: self.found@,
        }
    }
}

impl<T> ExtensionScan<T> {
    /// A search that has yet to perform its first step.
    pub fn start(production: bool, cargo_version: String, rustc_version: String) -> (res: Self)
        ensures
            res@ == ScanModel::<T>::start(production, cargo_version@, rustc_version@),
    {
        ExtensionScan {
            production,
            cargo_version,
            rustc_version,
            step: ScanStep::CreateUserDirectory,
            found: ExtensionMap::new(),
        }
    }

    /// The step to perform next.
    pub fn step(&self) -> (res: ScanStep)
        ensures
            res == self@.step,
    {
        self.step
    }

    /// Takes in what came of the step that was asked for.
    pub fn advance(&mut self, event: ScanEvent<T>)
        requires
            answers(old(self)@.step, event),
        ensures
            final(self)@ == old(self)@.advanced(event),
    {
        match event {
            ScanEvent::Failed => {
                self.step = ScanStep::Aborted;
            },
            ScanEvent::Succeeded => {
                self.step =
                match self.step {
                    ScanStep::CreateUserDirectory => ScanStep::OpenUserDirectory,
                    ScanStep::OpenUserDirectory => ScanStep::NextUserEntry,
                    ScanStep::LocateBuiltInDirectory => ScanStep::OpenBuiltInDirectory,
                    _ => ScanStep::NextBuiltInEntry,
                };
            },
            ScanEvent::LoadFailed => {},
            ScanEvent::Loaded { cargo_version, rustc_version } => {
                if cargo_version == self.cargo_version && rustc_version == self.rustc_version {
                    self.step =
                    match self.step {
                        ScanStep::NextUserEntry => ScanStep::NameUserExtension,
                        _ => ScanStep::NameBuiltInExtension,
                    };
                }
            },
            ScanEvent::Named { name, extension } => {
                self.found.insert(name, extension);
                self.step =
                match self.step {
                    ScanStep::NameUserExtension => ScanStep::NextUserEntry,
                    _ => ScanStep::NextBuiltInEntry,
                };
            },
            ScanEvent::EndOfDirectory => {
                self.step =
                match self.step {
                    ScanStep::NextUserEntry => {
                        if self.production {
                            ScanStep::LocateBuiltInDirectory
                        } else {
                            ScanStep::Complete
                        }
                    },
                    _ => ScanStep::Complete,
                };
            },
        }
    }

    /// The extensions found, once the search is over; nothing if it gave up.
    pub fn outcome(self) -> (res: Option<ExtensionMap<T>>)
        requires
            self@.step is Complete || self@.step is Aborted,
        ensures
            res is Some <==> self@.step is Complete,
            res matches Some(found) ==> found@ == self@.found,
            self@.result() == match res {
                Some(found) => Some(found@),
                None => None,
            },
    {
        match self.step {
            ScanStep::Complete => Some(self.found),
            _ => None,
        }
    }
}

/// `event` registers an extension under `name`.
pub open spec fn registers<T>(event: ScanEvent<T>, name: Seq<char>) -> bool {
    event matches ScanEvent::Named { name: given, .. } && given@ == name
}

/// The part of the search that a step belongs to, in the order in which they come.
pub open spec fn phase(step: ScanStep) -> int {
    match step {
        ScanStep::CreateUserDirectory => 0,
        ScanStep::OpenUserDirectory => 1,
        ScanStep::NextUserEntry | ScanStep::NameUserExtension => 2,
        ScanStep::LocateBuiltInDirectory => 3,
        ScanStep::OpenBuiltInDirectory => 4,
        ScanStep::NextBuiltInEntry | ScanStep::NameBuiltInExtension => 5,
        ScanStep::Complete | ScanStep::Aborted => 6,
    }
}

/// The step concerns the extensions that come with the client.
pub open spec fn concerns_built_in(step: ScanStep) -> bool {
    3 <= phase(step) <= 5
}

proof fn lemma_plays_prefix<T>(model: ScanModel<T>, events: Seq<ScanEvent<T>>)
    requires
        model.plays(events),
        events.len() > 0,
    ensures
        model.plays(events.drop_last()),
        answers(model.run(events.drop_last()).step, events.last()),
{
    let shorter = events.drop_last();
    assert forall|i: int| #![trigger shorter[i]] 0 <= i < shorter.len() implies answers(
        model.run(shorter.take(i)).step,
        shorter[i],
    ) by {
        assert(shorter.take(i) =~= events.take(i));
        assert(events[i] == shorter[i]);
    }
    assert(events.take(events.len() - 1) =~= shorter);
    assert(events[events.len() - 1] == events.last());
}

/// A search keeps what it was started with.
proof fn lemma_run_keeps<T>(model: ScanModel<T>, events: Seq<ScanEvent<T>>)
    ensures
        model.run(events).production == model.production,
        model.run(events).cargo_version == model.cargo_version,
        model.run(events).rustc_version == model.rustc_version,
    decreases events.len(),
{
    if events.len() > 0 {
        lemma_run_keeps(model, events.drop_last());
    }
}

/// A search holds exactly the names that were registered.
pub proof fn found_names_were_registered<T>(
    production: bool,
    cargo_version: Seq<char>,
    rustc_version: Seq<char>,
    events: Seq<ScanEvent<T>>,
    name: Seq<char>,
)
    ensures
        ScanModel::<T>::start(production, cargo_version, rustc_version).run(
            events,
        ).found.contains_key(name) <==> exists|i: int|
            0 <= i < events.len() && #[trigger] registers(events[i], name),
    decreases events.len(),
{
    let start = ScanModel::<T>::start(production, cargo_version, rustc_version);
    if events.len() > 0 {
        let shorter = events.drop_last();
        found_names_were_registered(production, cargo_version, rustc_version, shorter, name);
        let last = events.len() - 1;
        assert(start.run(events) == start.run(shorter).advanced(events[last]));
        if start.run(events).found.contains_key(name) {
            if start.run(shorter).found.contains_key(name) {
                let i = choose|i: int| 0 <= i < shorter.len() && registers(shorter[i], name);
                assert(registers(events[i], name));
            } else {
                assert(registers(events[last], name));
            }
        }
        if exists|i: int| 0 <= i < events.len() && #[trigger] registers(events[i], name) {
            let i = choose|i: int| 0 <= i < events.len() && registers(events[i], name);
            if i < last {
                assert(registers(shorter[i], name));
            }
        }
    }
}

/// Of the extensions registered under one name, a search holds the last: one that comes
/// with the client stands in place of one of the user's with the same name.
pub proof fn last_registration_stands<T>(
    model: ScanModel<T>,
    events: Seq<ScanEvent<T>>,
    i: int,
    name: Seq<char>,
)
    requires
        0 <= i < events.len(),
        registers(events[i], name),
        forall|j: int| i < j < events.len() ==> !#[trigger] registers(events[j], name),
    ensures
        model.run(events).found.contains_key(name),
        events[i] matches ScanEvent::Named { extension, .. } && model.run(events).found[name]
            == extension,
    decreases events.len(),
{
    let shorter = events.drop_last();
    let last = events.len() - 1;
    assert(model.run(events) == model.run(shorter).advanced(events[last]));
    if i < last {
        assert(!registers(events[last], name));
        assert(registers(shorter[i], name));
        assert forall|j: int| i < j < shorter.len() implies !#[trigger] registers(
            shorter[j],
            name,
        ) by {
            assert(!registers(events[j], name));
        }
        last_registration_stands(model, shorter, i, name);
    }
}

/// An extension is asked for its name, and registered, only right after it was found to
/// be built with the versions that the search asks for.
pub proof fn only_compatible_extensions_are_registered<T>(
    production: bool,
    cargo_version: Seq<char>,
    rustc_version: Seq<char>,
    events: Seq<ScanEvent<T>>,
    i: int,
)
    requires
        ScanModel::<T>::start(production, cargo_version, rustc_version).plays(events),
        0 <= i < events.len(),
        events[i] is Named,
    ensures
        0 < i,
        events[i - 1] matches ScanEvent::Loaded { cargo_version: c, rustc_version: r } && c@
            == cargo_version && r@ == rustc_version,
{
    let start = ScanModel::<T>::start(production, cargo_version, rustc_version);
    assert(answers(start.run(events.take(i)).step, events[i]));
    if i == 0 {
        assert(events.take(0) =~= Seq::<ScanEvent<T>>::empty());
        assert(start.run(events.take(0)) == start);
    } else {
        let before = events.take(i - 1);
        assert(events.take(i).drop_last() =~= before);
        assert(events.take(i).last() == events[i - 1]);
        assert(start.run(events.take(i)) == start.run(before).advanced(events[i - 1]));
        assert(answers(start.run(before).step, events[i - 1]));
        lemma_run_keeps(start, before);
    }
}

/// A search gives up exactly when a step failed, and takes no step after that.
pub proof fn any_failure_aborts<T>(
    production: bool,
    cargo_version: Seq<char>,
    rustc_version: Seq<char>,
    events: Seq<ScanEvent<T>>,
)
    requires
        ScanModel::<T>::start(production, cargo_version, rustc_version).plays(events),
    ensures
        ScanModel::<T>::start(production, cargo_version, rustc_version).run(events).step is Aborted
            <==> exists|i: int| 0 <= i < events.len() && #[trigger] events[i] is Failed,
        forall|i: int|
            0 <= i < events.len() && #[trigger] events[i] is Failed ==> i == events.len() - 1,
    decreases events.len(),
{
    let start = ScanModel::<T>::start(production, cargo_version, rustc_version);
    if events.len() > 0 {
        let shorter = events.drop_last();
        let last = events.len() - 1;
        lemma_plays_prefix(start, events);
        any_failure_aborts(production, cargo_version, rustc_version, shorter);
        assert(start.run(events) == start.run(shorter).advanced(events[last]));
        assert forall|i: int| 0 <= i < events.len() && #[trigger] events[i] is Failed implies i
            == last by {
            if i < last {
                assert(shorter[i] is Failed);
            }
        }
        if start.run(events).step is Aborted {
            assert(events[last] is Failed);
        }
    }
}

/// One step of a search does not go back.
proof fn lemma_step_goes_forward<T>(model: ScanModel<T>, event: ScanEvent<T>)
    requires
        answers(model.step, event),
    ensures
        phase(model.step) <= phase(model.advanced(event).step),
{
}

/// A search never goes back: the user's extensions are all read before those that come
/// with the client.
#[verifier::spinoff_prover]
pub proof fn search_goes_forward<T>(model: ScanModel<T>, events: Seq<ScanEvent<T>>, i: int, j: int)
    requires
        model.plays(events),
        0 <= i <= j <= events.len(),
    ensures
        phase(model.run(events.take(i)).step) <= phase(model.run(events.take(j)).step),
    decreases j - i,
{
    if i < j {
        search_goes_forward(model, events, i, j - 1);
        let before = events.take(j - 1);
        assert(events.take(j).drop_last() =~= before);
        assert(events.take(j).last() == events[j - 1]);
        assert(model.run(events.take(j)) == model.run(before).advanced(events[j - 1]));
        lemma_step_goes_forward(model.run(before), events[j - 1]);
    }
}

/// The extensions that come with the client are looked for in production only.
pub proof fn built_in_extensions_are_for_production<T>(
    cargo_version: Seq<char>,
    rustc_version: Seq<char>,
    events: Seq<ScanEvent<T>>,
)
    requires
        ScanModel::<T>::start(false, cargo_version, rustc_version).plays(events),
    ensures
        !concerns_built_in(
            ScanModel::<T>::start(false, cargo_version, rustc_version).run(events).step,
        ),
    decreases events.len(),
{
    let start = ScanModel::<T>::start(false, cargo_version, rustc_version);
    if events.len() > 0 {
        lemma_plays_prefix(start, events);
        built_in_extensions_are_for_production(cargo_version, rustc_version, events.drop_last());
        lemma_run_keeps(start, events.drop_last());
    }
}

/// In production, a search that is over has been through the extensions that come with
/// the client: its last step but one was to read that directory.
pub proof fn production_reads_built_in_extensions<T>(
    cargo_version: Seq<char>,
    rustc_version: Seq<char>,
    events: Seq<ScanEvent<T>>,
)
    requires
        ScanModel::<T>::start(true, cargo_version, rustc_version).plays(events),
        ScanModel::<T>::start(true, cargo_version, rustc_version).run(events).step is Complete,
    ensures
        events.len() > 0,
        events.last() is EndOfDirectory,
        ScanModel::<T>::start(true, cargo_version, rustc_version).run(
            events.drop_last(),
        ).step is NextBuiltInEntry,
{
    let start = ScanModel::<T>::start(true, cargo_version, rustc_version);
    if events.len() > 0 {
        lemma_plays_prefix(start, events);
        lemma_run_keeps(start, events.drop_last());
    }
}

/// An entry that cannot be opened, or was built with other versions, is passed over.
pub proof fn unsuitable_entries_change_nothing<T>(model: ScanModel<T>, event: ScanEvent<T>)
    requires
        answers(model.step, event),
        event is LoadFailed || (event is Loaded && !model.compatible(event)),
    ensures
        model.advanced(event) == model,
{
}

/// How many times a directory was created, found or opened.
pub open spec fn successes<T>(events: Seq<ScanEvent<T>>) -> nat
    decreases events.len(),
{
    if events.len() == 0 {
        0
    } else {
        successes(events.drop_last()) + if events.last() is Succeeded {
            1nat
        } else {
            0nat
        }
    }
}

/// How many directories have been read to their end.
pub open spec fn directories_read<T>(events: Seq<ScanEvent<T>>) -> nat
    decreases events.len(),
{
    if events.len() == 0 {
        0
    } else {
        directories_read(events.drop_last()) + if events.last() is EndOfDirectory {
            1nat
        } else {
            0nat
        }
    }
}

/// `event` reports an extension that was built with these versions of the toolchain.
pub open spec fn built_with<T>(
    event: ScanEvent<T>,
    cargo_version: Seq<char>,
    rustc_version: Seq<char>,
) -> bool {
    event matches ScanEvent::Loaded { cargo_version: c, rustc_version: r } && c@ == cargo_version
        && r@ == rustc_version
}

/// A search starts with nothing found, and keeps to the end what it was started with.
pub proof fn search_keeps_what_it_was_started_with<T>(
    production: bool,
    cargo_version: Seq<char>,
    rustc_version: Seq<char>,
    events: Seq<ScanEvent<T>>,
)
    ensures
        ScanModel::<T>::start(production, cargo_version, rustc_version).found.dom() == Set::<
            Seq<char>,
        >::empty(),
        ({
            let model = ScanModel::<T>::start(production, cargo_version, rustc_version).run(events);
            &&& model.production == production
            &&& model.cargo_version == cargo_version
            &&& model.rustc_version == rustc_version
        }),
{
    lemma_run_keeps(ScanModel::<T>::start(production, cargo_version, rustc_version), events);
    assert(ScanModel::<T>::start(production, cargo_version, rustc_version).found.dom() =~= Set::<
        Seq<char>,
    >::empty());
}

/// An extension that was opened is asked for its name exactly when it was built with the
/// versions that the search was started with, whatever has been found so far and in
/// whichever directory it lies; otherwise the next entry is taken.
pub proof fn compatible_extension_is_asked_for_its_name<T>(model: ScanModel<T>, event: ScanEvent<T>)
    requires
        event is Loaded,
        model.step is NextUserEntry || model.step is NextBuiltInEntry,
    ensures
        model.advanced(event).step is NameUserExtension <==> model.step is NextUserEntry
            && built_with(event, model.cargo_version, model.rustc_version),
        model.advanced(event).step is NameBuiltInExtension <==> model.step is NextBuiltInEntry
            && built_with(event, model.cargo_version, model.rustc_version),
        !built_with(event, model.cargo_version, model.rustc_version) ==> model.advanced(event).step
            == model.step,
        model.advanced(event).found == model.found,
{
}

/// Once an extension has told its name it stands under that name, all others stand where
/// they stood, and the search goes on in the directory that the extension lies in.
pub proof fn named_extension_is_taken_in<T>(model: ScanModel<T>, name: String, extension: T, other:
    Seq<char>)
    requires
        model.step is NameUserExtension || model.step is NameBuiltInExtension,
    ensures
        ({
            let after = model.advanced(ScanEvent::Named { name, extension });
            &&& after.found.contains_key(name@)
            &&& after.found[name@] == extension
            &&& other != name@ ==> (after.found.contains_key(other) <==> model.found.contains_key(
                other,
            ))
            &&& other != name@ && model.found.contains_key(other) ==> after.found[other]
                == model.found[other]
            &&& after.step is NextUserEntry <==> model.step is NameUserExtension
            &&& after.step is NextBuiltInEntry <==> model.step is NameBuiltInExtension
        }),
{
}

/// In a search every extension that was built with the right versions is registered right
/// after it was opened.
pub proof fn every_compatible_extension_is_registered<T>(
    production: bool,
    cargo_version: Seq<char>,
    rustc_version: Seq<char>,
    events: Seq<ScanEvent<T>>,
    i: int,
)
    requires
        ScanModel::<T>::start(production, cargo_version, rustc_version).plays(events),
        0 <= i < events.len(),
        built_with(events[i], cargo_version, rustc_version),
    ensures
        i + 1 < events.len() ==> (events[i + 1] matches ScanEvent::Named { name, .. }
            && ScanModel::<T>::start(production, cargo_version, rustc_version).run(
            events,
        ).found.contains_key(name@)),
        i + 1 == events.len() ==> !(ScanModel::<T>::start(
            production,
            cargo_version,
            rustc_version,
        ).run(events).step is Complete),
{
    let start = ScanModel::<T>::start(production, cargo_version, rustc_version);
    let before = events.take(i);
    let upto = events.take(i + 1);
    assert(upto.drop_last() =~= before);
    assert(upto.last() == events[i]);
    assert(start.run(upto) == start.run(before).advanced(events[i]));
    assert(answers(start.run(before).step, events[i]));
    lemma_run_keeps(start, before);
    if i + 1 < events.len() {
        assert(answers(start.run(upto).step, events[i + 1]));
        assert(events[i + 1] is Named);
        let name = events[i + 1]->name@;
        assert(registers(events[i + 1], name));
        found_names_were_registered(production, cargo_version, rustc_version, events, name);
    } else {
        assert(upto =~= events);
    }
}

/// A search that has a result holds exactly the extensions that were built with the right
/// versions: a name stands in it if and only if such an extension, once opened, told it.
pub proof fn result_holds_exactly_the_compatible_extensions<T>(
    production: bool,
    cargo_version: Seq<char>,
    rustc_version: Seq<char>,
    events: Seq<ScanEvent<T>>,
    name: Seq<char>,
)
    requires
        ScanModel::<T>::start(production, cargo_version, rustc_version).plays(events),
        ScanModel::<T>::start(production, cargo_version, rustc_version).run(
            events,
        ).result() is Some,
    ensures
        ScanModel::<T>::start(production, cargo_version, rustc_version).run(
            events,
        ).result()->0.contains_key(name) <==> exists|i: int|
            0 < i < events.len() && #[trigger] registers(events[i], name) && built_with(
                events[i - 1],
                cargo_version,
                rustc_version,
            ),
{
    let start = ScanModel::<T>::start(production, cargo_version, rustc_version);
    found_names_were_registered(production, cargo_version, rustc_version, events, name);
    if exists|i: int| 0 <= i < events.len() && #[trigger] registers(events[i], name) {
        let i = choose|i: int| 0 <= i < events.len() && registers(events[i], name);
        only_compatible_extensions_are_registered(
            production,
            cargo_version,
            rustc_version,
            events,
            i,
        );
        assert(built_with(events[i - 1], cargo_version, rustc_version));
    }
}

/// A search that is over has a result exactly when nothing failed.
pub proof fn result_stands_unless_something_failed<T>(
    production: bool,
    cargo_version: Seq<char>,
    rustc_version: Seq<char>,
    events: Seq<ScanEvent<T>>,
)
    requires
        ScanModel::<T>::start(production, cargo_version, rustc_version).plays(events),
        ({
            let step = ScanModel::<T>::start(production, cargo_version, rustc_version).run(
                events,
            ).step;
            step is Complete || step is Aborted
        }),
    ensures
        ScanModel::<T>::start(production, cargo_version, rustc_version).run(events).result() is Some
            <==> forall|i: int| 0 <= i < events.len() ==> !(#[trigger] events[i] is Failed),
{
    any_failure_aborts(production, cargo_version, rustc_version, events);
}

/// How far a search has got is counted by what has been done: in production it takes four
/// steps that succeed and two directories read to their end, and it is over with the last
/// of them; otherwise two steps that succeed and one directory.
pub proof fn progress_is_counted<T>(
    production: bool,
    cargo_version: Seq<char>,
    rustc_version: Seq<char>,
    events: Seq<ScanEvent<T>>,
)
    requires
        ScanModel::<T>::start(production, cargo_version, rustc_version).plays(events),
        !(ScanModel::<T>::start(production, cargo_version, rustc_version).run(
            events,
        ).step is Aborted),
    ensures
        ({
            let step = ScanModel::<T>::start(production, cargo_version, rustc_version).run(
                events,
            ).step;
            &&& production ==> phase(step) == successes(events) + directories_read(events)
            &&& production ==> (step is Complete <==> successes(events) == 4 && directories_read(
                events,
            ) == 2)
            &&& !production ==> (step is Complete <==> successes(events) == 2 && directories_read(
                events,
            ) == 1)
            &&& !production && !(step is Complete) ==> phase(step) == successes(events)
                && directories_read(events) == 0
        }),
{
    let start = ScanModel::<T>::start(production, cargo_version, rustc_version);
    lemma_progress(start, events);
}

/// What [`progress_is_counted`] rests on: the counts behind each part of the search.
proof fn lemma_progress<T>(start: ScanModel<T>, events: Seq<ScanEvent<T>>)
    requires
        start == ScanModel::<T>::start(start.production, start.cargo_version, start.rustc_version),
        start.plays(events),
        !(start.run(events).step is Aborted),
    ensures
        ({
            let phase = phase(start.run(events).step);
            let (s, d) = (successes(events), directories_read(events));
            &&& phase <= 2 ==> s == phase && d == 0
            &&& 3 <= phase <= 5 ==> start.production && s == phase - 1 && d == 1
            &&& phase == 6 ==> if start.production {
                s == 4 && d == 2
            } else {
                s == 2 && d == 1
            }
        }),
    decreases events.len(),
{
    if events.len() > 0 {
        let shorter = events.drop_last();
        lemma_plays_prefix(start, events);
        lemma_run_keeps(start, shorter);
        assert(start.run(events) == start.run(shorter).advanced(events.last()));
        assert(answers(start.run(shorter).step, events.last()));
        lemma_progress(start, shorter);
    }
}

/// The entries that a list of distinctly named values stands for are its own: each name
/// leads to the value beside it, and no other name leads anywhere.
pub proof fn entries_stand_under_their_names<T>(entries: Seq<(String, T)>, name: Seq<char>)
    requires
        names_distinct(entries),
    ensures
        forall|i: int|
            0 <= i < entries.len() ==> #[trigger] entries_map(entries).contains_key(
                entries[i].0@,
            ) && entries_map(entries)[entries[i].0@] == entries[i].1,
        entries_map(entries).contains_key(name) ==> exists|i: int|
            0 <= i < entries.len() && (#[trigger] entries[i]).0@ == name,
{
    assert forall|i: int| 0 <= i < entries.len() implies #[trigger] entries_map(
        entries,
    ).contains_key(entries[i].0@) && entries_map(entries)[entries[i].0@] == entries[i].1 by {
        lemma_entries_map(entries, i);
    }
    if entries_map(entries).contains_key(name) {
        let i = choose|i: int| named_at(entries, name, i);
        assert(entries[i].0@ == name);
    }
}

} // verus!
