//! The seven-tuple that defines a Turing machine, its structural validation,
//! and the conversion from the parsed source-format value.

use vstd::prelude::*;

verus! {

/// The movements a transition may take.
#[derive(Clone, Copy, Debug, PartialEq, Eq, Hash, Structural)]
pub enum Movement {
    /// Move to the right.
    R,
    /// Move to the left.
    L,
}

/// The actions taken when a transition is applied: the symbol to write, the
/// state to enter, and the optional head movement.
#[derive(Clone, Debug, PartialEq, Eq, Hash)]
pub struct Transition {
    pub write_symbol: char,
    pub next_state: String,
    pub move_to: Option<Movement>,
}

/// Mathematical image of a [`Transition`]: the state name as a sequence of
/// characters.
#[verifier::ext_equal]
pub struct SpecTransition {
    pub write_symbol: char,
    pub next_state: Seq<char>,
    pub move_to: Option<Movement>,
}

impl View for Transition {
    type V = SpecTransition;

    open spec fn view(&self) -> SpecTransition {
        SpecTransition {
            write_symbol: self.write_symbol,
            next_state: self.next_state@,
            move_to: self.move_to,
        }
    }
}

/// One entry of the transition table: the (state, symbol) key together with
/// the transition to apply.
#[derive(Clone, Debug, PartialEq, Eq, Hash)]
pub struct TransitionEntry {
    pub from_state: String,
    pub read_symbol: char,
    pub transition: Transition,
}

/// Mathematical image of a [`TransitionEntry`].
#[verifier::ext_equal]
pub struct SpecTransitionEntry {
    pub from_state: Seq<char>,
    pub read_symbol: char,
    pub transition: SpecTransition,
}

impl View for TransitionEntry {
    type V = SpecTransitionEntry;

    open spec fn view(&self) -> SpecTransitionEntry {
        SpecTransitionEntry {
            from_state: self.from_state@,
            read_symbol: self.read_symbol,
            transition: self.transition@,
        }
    }
}

/// The transition table of a machine. The table represents a partial map from
/// (state, symbol) to a transition; a lookup takes the first entry whose key
/// matches.
pub type TransitionMap = Vec<TransitionEntry>;

/// The seven-tuple used to define a Turing machine.
#[derive(Clone, Debug)]
pub struct Septuple {
    /// Symbols of the tape alphabet.
    pub alphabet: Vec<char>,
    /// Blank symbol: the only symbol that may occur infinitely often on the
    /// tape at any point of the computation.
    pub blank_symbol: char,
    /// The set of symbols that may be present on an initial tape.
    pub input_symbols: Vec<char>,
    /// The set of states the machine may take.
    pub states: Vec<String>,
    /// The initial state of the machine.
    pub initial_state: String,
    /// The set of accepting states of the machine.
    pub final_states: Vec<String>,
    /// The transition table representing the machine's transition function.
    pub transition_map: TransitionMap,
}

/// Mathematical image of a [`Septuple`]: every collection as a sequence and
/// every state name as a sequence of characters.
#[verifier::ext_equal]
pub struct SpecSeptuple {
    pub alphabet: Seq<char>,
    pub blank_symbol: char,
    pub input_symbols: Seq<char>,
    pub states: Seq<Seq<char>>,
    pub initial_state: Seq<char>,
    pub final_states: Seq<Seq<char>>,
    pub transition_map: Seq<SpecTransitionEntry>,
}

impl View for Septuple {
    type V = SpecSeptuple;

    open spec fn view(&self) -> SpecSeptuple {
        SpecSeptuple {
            alphabet: self.alphabet@,
            blank_symbol: self.blank_symbol,
            input_symbols: self.input_symbols@,
            states: self.states.deep_view(),
            initial_state: self.initial_state@,
            final_states: self.final_states.deep_view(),
            transition_map: self.transition_map@.map_values(|e: TransitionEntry| e@),
        }
    }
}

/// The transition for (state, symbol) among the table entries from index `i`
/// on: the first entry whose key matches.
pub open spec fn lookup_from(
    entries: Seq<SpecTransitionEntry>,
    state: Seq<char>,
    symbol: char,
    i: int,
) -> Option<SpecTransition>
    decreases entries.len() - i,
{
    if i < 0 || i >= entries.len() {
        None
    } else if entries[i].from_state == state && entries[i].read_symbol == symbol {
        Some(entries[i].transition)
    } else {
        lookup_from(entries, state, symbol, i + 1)
    }
}

/// The transition the table defines for (state, symbol), if any.
pub open spec fn spec_lookup(
    entries: Seq<SpecTransitionEntry>,
    state: Seq<char>,
    symbol: char,
) -> Option<SpecTransition> {
    lookup_from(entries, state, symbol, 0)
}

/// The conditions a [`SpecTransitionEntry`] must satisfy within a definition:
/// both its states belong to the state set and both its symbols to the
/// alphabet.
pub open spec fn entry_wf(sep: SpecSeptuple, e: SpecTransitionEntry) -> bool {
    &&& sep.states.contains(e.from_state)
    &&& sep.alphabet.contains(e.read_symbol)
    &&& sep.states.contains(e.transition.next_state)
    &&& sep.alphabet.contains(e.transition.write_symbol)
}

impl SpecSeptuple {
    /// Structural validity of a definition: the five invariants that
    /// [`Septuple::valid`] checks.
    pub open spec fn wf(self) -> bool {
        &&& self.alphabet.contains(self.blank_symbol)
        &&& forall|i: int|
            0 <= i < self.input_symbols.len() ==> self.alphabet.contains(
                #[trigger] self.input_symbols[i],
            )
        &&& self.states.contains(self.initial_state)
        &&& forall|i: int|
            0 <= i < self.final_states.len() ==> self.states.contains(
                #[trigger] self.final_states[i],
            )
        &&& forall|i: int|
            0 <= i < self.transition_map.len() ==> entry_wf(self, #[trigger] self.transition_map[i])
    }
}

/// The first violation a transition-table entry exhibits, checking its key
/// state, its key symbol, its next state and its written symbol in that
/// order.
pub open spec fn entry_error(sep: SpecSeptuple, e: SpecTransitionEntry) -> Option<SepError> {
    if !sep.states.contains(e.from_state) {
        Some(SepError::TransitionStateNotInStates)
    } else if !sep.alphabet.contains(e.read_symbol) {
        Some(SepError::TransitionSymbolNotInAlphabet)
    } else if !sep.states.contains(e.transition.next_state) {
        Some(SepError::TransitionStateNotInStates)
    } else if !sep.alphabet.contains(e.transition.write_symbol) {
        Some(SepError::TransitionSymbolNotInAlphabet)
    } else {
        None
    }
}

/// The first violation among the table entries from index `i` on.
pub open spec fn entries_error_from(
    sep: SpecSeptuple,
    entries: Seq<SpecTransitionEntry>,
    i: int,
) -> Option<SepError>
    decreases entries.len() - i,
{
    if i < 0 || i >= entries.len() {
        None
    } else if entry_error(sep, entries[i]) is Some {
        entry_error(sep, entries[i])
    } else {
        entries_error_from(sep, entries, i + 1)
    }
}

/// The outcome of validating a definition: the first invariant violated, in
/// the fixed order of [`SepError`]'s variants, or success.
pub open spec fn spec_validate(sep: SpecSeptuple) -> Result<(), SepError> {
    if !sep.alphabet.contains(sep.blank_symbol) {
        Err(SepError::BlankNotInAlph)
    } else if !(forall|i: int|
        0 <= i < sep.input_symbols.len() ==> sep.alphabet.contains(
            #[trigger] sep.input_symbols[i],
        )) {
        Err(SepError::InputNotSubAlph)
    } else if !sep.states.contains(sep.initial_state) {
        Err(SepError::InitNotInStates)
    } else if !(forall|i: int|
        0 <= i < sep.final_states.len() ==> sep.states.contains(#[trigger] sep.final_states[i])) {
        Err(SepError::FinalNotSubStates)
    } else {
        match entries_error_from(sep, sep.transition_map, 0) {
            Some(e) => Err(e),
            None => Ok(()),
        }
    }
}

/// From index `i` on, the table has no violation exactly when every one of
/// its remaining entries is well formed.
proof fn lemma_entries_error_none(sep: SpecSeptuple, entries: Seq<SpecTransitionEntry>, i: int)
    requires
        0 <= i,
    ensures
        entries_error_from(sep, entries, i) is None <==> forall|j: int|
            i <= j < entries.len() ==> entry_error(sep, #[trigger] entries[j]) is None,
    decreases entries.len() - i,
{
    if 0 <= i < entries.len() {
        lemma_entries_error_none(sep, entries, i + 1);
    }
}

/// Validation succeeds exactly on the well-formed definitions.
pub proof fn lemma_validate_ok_iff_wf(sep: SpecSeptuple)
    ensures
        spec_validate(sep) is Ok <==> sep.wf(),
{
    lemma_entries_error_none(sep, sep.transition_map, 0);
    assert(forall|i: int|
        0 <= i < sep.transition_map.len() ==> (entry_error(sep, #[trigger] sep.transition_map[i])
            is None <==> entry_wf(sep, sep.transition_map[i])));
}

/// The definition errors, in the order in which [`Septuple::valid`] checks
/// for them.
#[derive(Clone, Copy, Debug, PartialEq, Eq, Structural)]
pub enum SepError {
    /// The blank symbol is not in the alphabet.
    BlankNotInAlph,
    /// The set of input symbols is not a subset of the alphabet.
    InputNotSubAlph,
    /// The initial state is not in the set of states.
    InitNotInStates,
    /// The set of final states is not a subset of the set of states.
    FinalNotSubStates,
    /// A state named by a transition is not in the set of states.
    TransitionStateNotInStates,
    /// A symbol named by a transition is not in the alphabet.
    TransitionSymbolNotInAlphabet,
}

/// The source-format image of a transition: the (state, symbol) key it is
/// looked up under, inline with the action to take.
#[derive(Clone, Debug)]
pub struct JsonTransition {
    pub from_state: String,
    pub read_symbol: char,
    pub write_symbol: char,
    pub next_state: String,
    pub move_to: Option<Movement>,
}

/// Mathematical image of a [`JsonTransition`].
#[verifier::ext_equal]
pub struct SpecJsonTransition {
    pub from_state: Seq<char>,
    pub read_symbol: char,
    pub write_symbol: char,
    pub next_state: Seq<char>,
    pub move_to: Option<Movement>,
}

impl View for JsonTransition {
    type V = SpecJsonTransition;

    open spec fn view(&self) -> SpecJsonTransition {
        SpecJsonTransition {
            from_state: self.from_state@,
            read_symbol: self.read_symbol,
            write_symbol: self.write_symbol,
            next_state: self.next_state@,
            move_to: self.move_to,
        }
    }
}

/// A structure mirroring [`Septuple`], shaped as the source format lays a
/// definition out: the transitions as one flat list that carries each key
/// inline, rather than as a keyed table.
#[derive(Clone, Debug)]
pub struct JsonSeptuple {
    pub alphabet: Vec<char>,
    pub blank_symbol: char,
    pub input_symbols: Vec<char>,
    pub states: Vec<String>,
    pub initial_state: String,
    pub final_states: Vec<String>,
    pub transitions: Vec<JsonTransition>,
}

/// Mathematical image of a [`JsonSeptuple`].
#[verifier::ext_equal]
pub struct SpecJsonSeptuple {
    pub alphabet: Seq<char>,
    pub blank_symbol: char,
    pub input_symbols: Seq<char>,
    pub states: Seq<Seq<char>>,
    pub initial_state: Seq<char>,
    pub final_states: Seq<Seq<char>>,
    pub transitions: Seq<SpecJsonTransition>,
}

impl View for JsonSeptuple {
    type V = SpecJsonSeptuple;

    open spec fn view(&self) -> SpecJsonSeptuple {
        SpecJsonSeptuple {
            alphabet: self.alphabet@,
            blank_symbol: self.blank_symbol,
            input_symbols: self.input_symbols@,
            states: self.states.deep_view(),
            initial_state: self.initial_state@,
            final_states: self.final_states.deep_view(),
            transitions: self.transitions@.map_values(|t: JsonTransition| t@),
        }
    }
}

/// The transition-table entry a source-format transition stands for.
pub open spec fn spec_entry_of(t: SpecJsonTransition) -> SpecTransitionEntry {
    SpecTransitionEntry {
        from_state: t.from_state,
        read_symbol: t.read_symbol,
        transition: SpecTransition {
            write_symbol: t.write_symbol,
            next_state: t.next_state,
            move_to: t.move_to,
        },
    }
}

/// The definition a parsed source-format value stands for: the same seven
/// components, with the flat transition list turned into the transition
/// table, in order.
pub open spec fn spec_from_parts(j: SpecJsonSeptuple) -> SpecSeptuple {
    SpecSeptuple {
        alphabet: j.alphabet,
        blank_symbol: j.blank_symbol,
        input_symbols: j.input_symbols,
        states: j.states,
        initial_state: j.initial_state,
        final_states: j.final_states,
        transition_map: j.transitions.map_values(|t: SpecJsonTransition| spec_entry_of(t)),
    }
}

impl Septuple {
    /// Builds the seven-tuple from a parsed source-format value.
    pub fn from_parts(json: JsonSeptuple) -> (r: Septuple)
        ensures
            r@ == spec_from_parts(json@),
    {
        let JsonSeptuple {
            alphabet,
            blank_symbol,
            input_symbols,
            states,
            initial_state,
            final_states,
            transitions,
        } = json;

        let mut transition_map: Vec<TransitionEntry> = Vec::new();
        let mut i: usize = 0;
        while i < transitions.len()
            invariant
                0 <= i <= transitions@.len(),
                transition_map@.len() == i,
                forall|k: int|
                    0 <= k < i ==> (#[trigger] transition_map@[k])@ == spec_entry_of(
                        transitions@[k]@,
                    ),
            decreases transitions@.len() - i,
        {
            let t = &transitions[i];
            transition_map.push(
                TransitionEntry {
                    from_state: t.from_state.clone(),
                    read_symbol: t.read_symbol,
                    transition: Transition {
                        write_symbol: t.write_symbol,
                        next_state: t.next_state.clone(),
                        move_to: t.move_to,
                    },
                },
            );
            i += 1;
        }

        let r = Septuple {
            alphabet,
            blank_symbol,
            input_symbols,
            states,
            initial_state,
            final_states,
            transition_map,
        };
        proof {
            assert(r@ =~~= spec_from_parts(json@));
        }
        r
    }
}

/// Whether the vector `v` holds the character `c`.
pub fn contains_char(v: &Vec<char>, c: char) -> (r: bool)
    ensures
        r == v@.contains(c),
{
    let mut i: usize = 0;
    while i < v.len()
        invariant
            0 <= i <= v@.len(),
            forall|j: int| 0 <= j < i ==> v@[j] != c,
        decreases v@.len() - i,
    {
        if v[i] == c {
            return true;
        }
        i += 1;
    }
    false
}

/// Whether the vector `v` holds a string equal to `s`.
pub fn contains_string(v: &Vec<String>, s: &String) -> (r: bool)
    ensures
        r == v.deep_view().contains(s@),
{
    let mut i: usize = 0;
    while i < v.len()
        invariant
            0 <= i <= v@.len(),
            forall|j: int| 0 <= j < i ==> v.deep_view()[j] != s@,
        decreases v@.len() - i,
    {
        if v[i] == *s {
            assert(v.deep_view()[i as int] == s@);
            return true;
        }
        i += 1;
    }
    false
}

/// Whether every character of `a` occurs in `b`.
pub fn chars_subset(a: &Vec<char>, b: &Vec<char>) -> (r: bool)
    ensures
        r == forall|i: int| 0 <= i < a@.len() ==> b@.contains(#[trigger] a@[i]),
{
    let mut i: usize = 0;
    while i < a.len()
        invariant
            0 <= i <= a@.len(),
            forall|j: int| 0 <= j < i ==> b@.contains(#[trigger] a@[j]),
        decreases a@.len() - i,
    {
        if !contains_char(b, a[i]) {
            return false;
        }
        i += 1;
    }
    true
}

/// Whether every string of `a` occurs in `b`.
pub fn strings_subset(a: &Vec<String>, b: &Vec<String>) -> (r: bool)
    ensures
        r == forall|i: int|
            0 <= i < a.deep_view().len() ==> b.deep_view().contains(#[trigger] a.deep_view()[i]),
{
    let mut i: usize = 0;
    while i < a.len()
        invariant
            0 <= i <= a@.len(),
            a.deep_view().len() == a@.len(),
            forall|j: int| 0 <= j < i ==> b.deep_view().contains(#[trigger] a.deep_view()[j]),
        decreases a@.len() - i,
    {
        if !contains_string(b, &a[i]) {
            assert(a.deep_view()[i as int] == a@[i as int]@);
            return false;
        }
        assert(a.deep_view()[i as int] == a@[i as int]@);
        i += 1;
    }
    true
}

impl Septuple {
    /// Checks whether one entry of the transition table is consistent
    /// with the definition's states and alphabet, its fields in the fixed
    /// order of [`entry_error`].
    fn check_entry(&self, entry: &TransitionEntry) -> (r: Option<SepError>)
        ensures
            r == entry_error(self@, entry@),
    {
        if !contains_string(&self.states, &entry.from_state) {
            return Some(SepError::TransitionStateNotInStates);
        }
        if !contains_char(&self.alphabet, entry.read_symbol) {
            return Some(SepError::TransitionSymbolNotInAlphabet);
        }
        if !contains_string(&self.states, &entry.transition.next_state) {
            return Some(SepError::TransitionStateNotInStates);
        }
        if !contains_char(&self.alphabet, entry.transition.write_symbol) {
            return Some(SepError::TransitionSymbolNotInAlphabet);
        }
        None
    }

    /// Checks whether the seven-tuple is valid. The ways in which it can be
    /// invalid are described by the variants of [`SepError`]; the checks run
    /// in that fixed order and the first violation found is returned.
    pub fn valid(&self) -> (r: Result<(), SepError>)
        ensures
            r == spec_validate(self@),
            r is Ok <==> self@.wf(),
    {
        proof {
            lemma_validate_ok_iff_wf(self@);
        }
        if !contains_char(&self.alphabet, self.blank_symbol) {
            return Err(SepError::BlankNotInAlph);
        }
        if !chars_subset(&self.input_symbols, &self.alphabet) {
            return Err(SepError::InputNotSubAlph);
        }
        if !contains_string(&self.states, &self.initial_state) {
            return Err(SepError::InitNotInStates);
        }
        if !strings_subset(&self.final_states, &self.states) {
            return Err(SepError::FinalNotSubStates);
        }

        let mut i: usize = 0;
        while i < self.transition_map.len()
            invariant
                0 <= i <= self.transition_map@.len(),
                self@.transition_map.len() == self.transition_map@.len(),
                self@.alphabet.contains(self@.blank_symbol),
                forall|k: int|
                    0 <= k < self@.input_symbols.len() ==> self@.alphabet.contains(
                        #[trigger] self@.input_symbols[k],
                    ),
                self@.states.contains(self@.initial_state),
                forall|k: int|
                    0 <= k < self@.final_states.len() ==> self@.states.contains(
                        #[trigger] self@.final_states[k],
                    ),
                spec_validate(self@) is Ok <==> self@.wf(),
                entries_error_from(self@, self@.transition_map, 0) == entries_error_from(
                    self@,
                    self@.transition_map,
                    i as int,
                ),
            decreases self.transition_map@.len() - i,
        {
            assert(self@.transition_map[i as int] == self.transition_map@[i as int]@);
            let entry = &self.transition_map[i];
            match self.check_entry(entry) {
                Some(err) => {
                    assert(entries_error_from(self@, self@.transition_map, i as int) == Some(err));
                    return Err(err);
                },
                None => {},
            }
            proof {
                assert(entries_error_from(self@, self@.transition_map, i as int)
                    == entries_error_from(self@, self@.transition_map, i as int + 1));
            }
            i += 1;
        }
        Ok(())
    }
}

} // verus!
