//! The execution engine of a left-bounded Turing machine: holds the tape,
//! the head position and the current state, applies one transition per step,
//! and reverses any applied step exactly through a ledger of reversal
//! records.

pub mod sep;

use vstd::prelude::*;

use crate::machine::sep::{
    entry_wf, lookup_from, spec_lookup, Movement, Septuple, SpecSeptuple, SpecTransition,
    Transition,
};

verus! {

/// Acceptance or rejection of a tape by a Turing machine.
#[derive(Clone, Copy, Debug, PartialEq, Eq, Structural)]
pub enum Acceptance {
    Accepted,
    Rejected,
}

/// Error returned when a new machine is given a tape holding symbols outside
/// the definition's input symbols.
#[derive(Debug)]
pub struct InvalidSymbolError;

/// Error returned when there is no applied transition left to reverse.
#[derive(Debug)]
pub struct NoUndoError;

/// A machine configuration: the mathematical image of the tape, the head
/// position and the current state.
#[verifier::ext_equal]
pub struct Config {
    pub tape: Seq<char>,
    pub position: int,
    pub state: Seq<char>,
}

/// Mathematical image of a reversal record.
#[verifier::ext_equal]
pub struct SpecUndo {
    /// Whether the step being reversed grew the tape by one blank cell.
    pub pop: bool,
    /// The movement that reverses the step's movement, if it had one.
    pub movement: Option<Movement>,
    /// The symbol that stood under the head before the step.
    pub write: char,
    /// The state the machine was in before the step.
    pub state: Seq<char>,
}

/// The steps needed to reverse one applied transition. A record only ever
/// describes actions that are valid on the configuration it was recorded
/// against.
#[derive(Clone, Debug)]
struct Undo {
    /// If `true`, a blank symbol was appended to the tape by the reversed
    /// step.
    pop: bool,
    /// If `Some`, the opposite of the reversed step's movement.
    movement: Option<Movement>,
    /// The symbol to write back on the tape **after** undoing the movement.
    write: char,
    /// The state the machine was in before the reversed step.
    state: String,
}

impl View for Undo {
    type V = SpecUndo;

    closed spec fn view(&self) -> SpecUndo {
        SpecUndo { pop: self.pop, movement: self.movement, write: self.write, state: self.state@ }
    }
}

/// The configuration reached by applying the transition `t` to `c`, with
/// `blank` the definition's blank symbol: the cell under the head is
/// overwritten, the state changes, and the head moves; a right move from the
/// last cell first appends one blank cell.
pub open spec fn step_result(blank: char, c: Config, t: SpecTransition) -> Config {
    let written = c.tape.update(c.position, t.write_symbol);
    match t.move_to {
        None => Config { tape: written, position: c.position, state: t.next_state },
        Some(Movement::R) => {
            if c.position == c.tape.len() - 1 {
                Config {
                    tape: written.push(blank),
                    position: c.position + 1,
                    state: t.next_state,
                }
            } else {
                Config { tape: written, position: c.position + 1, state: t.next_state }
            }
        },
        Some(Movement::L) => Config {
            tape: written,
            position: c.position - 1,
            state: t.next_state,
        },
    }
}

/// The reversal record for applying the transition `t` to `c`: the old
/// symbol, the old state, the opposite movement, and whether the tape grew.
pub open spec fn step_undo_rec(c: Config, t: SpecTransition) -> SpecUndo {
    SpecUndo {
        pop: t.move_to == Some(Movement::R) && c.position == c.tape.len() - 1,
        movement: match t.move_to {
            None => None,
            Some(Movement::R) => Some(Movement::L),
            Some(Movement::L) => Some(Movement::R),
        },
        write: c.tape[c.position],
        state: c.state,
    }
}

/// The configuration reached by applying one step from `c` under the
/// definition `sep`, together with its reversal record. Meaningful only when
/// [`spec_acceptance`] is `None` on `c`.
pub open spec fn spec_step(sep: SpecSeptuple, c: Config) -> (Config, SpecUndo) {
    let t = spec_lookup(sep.transition_map, c.state, c.tape[c.position]).unwrap();
    (step_result(sep.blank_symbol, c, t), step_undo_rec(c, t))
}

/// The configuration reached by applying the reversal record `u` to `c`: if
/// the recorded step grew the tape, the last cell is removed; the recorded
/// opposite movement is applied; the recorded old symbol is restored at the
/// new head position; the recorded old state is restored.
pub open spec fn spec_undo(c: Config, u: SpecUndo) -> Config {
    let shrunk = if u.pop {
        c.tape.drop_last()
    } else {
        c.tape
    };
    let position = match u.movement {
        None => c.position,
        Some(Movement::R) => c.position + 1,
        Some(Movement::L) => c.position - 1,
    };
    Config { tape: shrunk.update(position, u.write), position, state: u.state }
}

/// Whether the reversal record `u` describes actions that are valid on `c`:
/// a removal finds a cell to remove, and the moved head lands inside the
/// shrunk tape.
pub open spec fn undo_applicable(c: Config, u: SpecUndo) -> bool {
    let shrunk_len = if u.pop {
        c.tape.len() - 1
    } else {
        c.tape.len() as int
    };
    let position = match u.movement {
        None => c.position,
        Some(Movement::R) => c.position + 1,
        Some(Movement::L) => c.position - 1,
    };
    &&& (u.pop ==> c.tape.len() >= 1)
    &&& 0 <= position < shrunk_len
}

/// A well-formed configuration of the definition `sep`: the head is on the
/// tape, the current state is one of the definition's states, and every tape
/// symbol belongs to the alphabet.
pub open spec fn wf_config(sep: SpecSeptuple, c: Config) -> bool {
    &&& 0 <= c.position < c.tape.len()
    &&& sep.states.contains(c.state)
    &&& forall|i: int| 0 <= i < c.tape.len() ==> sep.alphabet.contains(#[trigger] c.tape[i])
}

/// The acceptance status of the configuration `c` under the definition `sep`:
/// `Accepted` in a final state; `Rejected` when no transition applies, or
/// when the applicable transition would move left off the left-bounded tape;
/// `None` when a valid step can be applied.
pub open spec fn spec_acceptance(sep: SpecSeptuple, c: Config) -> Option<Acceptance> {
    if sep.final_states.contains(c.state) {
        Some(Acceptance::Accepted)
    } else {
        match spec_lookup(sep.transition_map, c.state, c.tape[c.position]) {
            None => Some(Acceptance::Rejected),
            Some(t) => if c.position == 0 && t.move_to == Some(Movement::L) {
                Some(Acceptance::Rejected)
            } else {
                None
            },
        }
    }
}

/// A valid ledger for the configuration `c`: applying the reversal records
/// from the most recent backwards is valid at every point and walks through
/// well-formed configurations only.
pub open spec fn ledger_ok(sep: SpecSeptuple, c: Config, ledger: Seq<SpecUndo>) -> bool
    decreases ledger.len(),
{
    ledger.len() == 0 || {
        let u = ledger.last();
        &&& undo_applicable(c, u)
        &&& wf_config(sep, spec_undo(c, u))
        &&& ledger_ok(sep, spec_undo(c, u), ledger.drop_last())
    }
}

/// A left-bounded Turing machine: a validated definition, a configuration,
/// and the ledger of reversal records for the steps applied so far.
#[derive(Debug, Clone)]
pub struct Machine<'machine> {
    septuple: &'machine Septuple,
    current_position: usize,
    current_state: String,
    tape: Vec<char>,
    undos: Vec<Undo>,
}

impl<'machine> Machine<'machine> {
    /// The definition the machine runs under.
    pub closed spec fn sep(self) -> SpecSeptuple {
        self.septuple@
    }

    /// The machine's configuration.
    pub closed spec fn config(self) -> Config {
        Config {
            tape: self.tape@,
            position: self.current_position as int,
            state: self.current_state@,
        }
    }

    /// The machine's ledger of reversal records, oldest first.
    pub closed spec fn ledger(self) -> Seq<SpecUndo> {
        self.undos@.map_values(|u: Undo| u@)
    }

    /// The machine's invariant: its definition is well formed, its
    /// configuration is well formed, and its ledger of reversal records is
    /// valid for its configuration.
    pub closed spec fn wf(self) -> bool {
        &&& self.sep().wf()
        &&& wf_config(self.sep(), self.config())
        &&& ledger_ok(self.sep(), self.config(), self.ledger())
    }

    /// Initializes a new Turing machine over an already validated
    /// seven-tuple. Fails exactly when the tape holds a symbol outside the
    /// definition's input symbols; on success, an empty tape is replaced by
    /// a single blank cell, the head is at position zero, the current state
    /// is the initial state, and the ledger is empty.
    pub fn new(septuple: &'machine Septuple, tape: Vec<char>) -> (r: Result<
        Machine<'machine>,
        InvalidSymbolError,
    >)
        requires
            septuple@.wf(),
        ensures
            r is Ok <==> (forall|i: int|
                0 <= i < tape@.len() ==> septuple@.input_symbols.contains(#[trigger] tape@[i])),
            r matches Ok(m) ==> ({
                &&& m.wf()
                &&& m.sep() == septuple@
                &&& m.config().tape == (if tape@.len() == 0 {
                    seq![septuple@.blank_symbol]
                } else {
                    tape@
                })
                &&& m.config().position == 0
                &&& m.config().state == septuple@.initial_state
                &&& m.ledger() == Seq::<SpecUndo>::empty()
            }),
    {
        let mut i: usize = 0;
        while i < tape.len()
            invariant
                0 <= i <= tape@.len(),
                forall|j: int|
                    0 <= j < i ==> septuple@.input_symbols.contains(#[trigger] tape@[j]),
            decreases tape@.len() - i,
        {
            if !sep::contains_char(&septuple.input_symbols, tape[i]) {
                assert(!septuple@.input_symbols.contains(tape@[i as int]));
                return Err(InvalidSymbolError);
            }
            i += 1;
        }

        let ghost input_tape = tape@;
        let mut tape = tape;
        if tape.len() == 0 {
            tape.push(septuple.blank_symbol);
        }

        let machine = Machine {
            tape,
            septuple,
            current_position: 0,
            current_state: septuple.initial_state.clone(),
            undos: Vec::new(),
        };
        proof {
            assert(machine.ledger() =~= Seq::<SpecUndo>::empty());
            if input_tape.len() == 0 {
                assert(machine.config().tape =~= seq![septuple@.blank_symbol]);
            }
            assert forall|j: int|
                0 <= j < machine.config().tape.len() implies septuple@.alphabet.contains(
                #[trigger] machine.config().tape[j],
            ) by {
                if input_tape.len() != 0 {
                    assert(septuple@.input_symbols.contains(input_tape[j]));
                }
            }
        }
        Ok(machine)
    }

    /// Applies the transition that matches the machine's current
    /// configuration. If the acceptance status is terminal, returns it
    /// as `Some` and changes nothing; while the machine is still processing
    /// the tape, applies one step, records its reversal, and returns `None`.
    pub fn transition(&mut self) -> (r: Option<Acceptance>)
        requires
            old(self).wf(),
        ensures
            final(self).wf(),
            final(self).sep() == old(self).sep(),
            r == spec_acceptance(old(self).sep(), old(self).config()),
            r is Some ==> *final(self) == *old(self),
            r is None ==> ({
                &&& final(self).config() == spec_step(old(self).sep(), old(self).config()).0
                &&& final(self).ledger() == old(self).ledger().push(
                    spec_step(old(self).sep(), old(self).config()).1,
                )
            }),
    {
        if self.in_final_state() {
            return Some(Acceptance::Accepted);
        }

        let transition = match self.get_transition() {
            Some(transition) => transition,
            None => {
                return Some(Acceptance::Rejected);
            },
        };

        if self.limited_left(transition) {
            return Some(Acceptance::Rejected);
        }

        proof {
            assert(spec_acceptance(self.sep(), self.config()) is None);
            lemma_step_preserves_wf(self.sep(), self.config());
            lemma_step_undo_inverse(self.sep().blank_symbol, self.config(), transition@);
        }
        let ghost prev = *self;
        let undo = self.apply(transition);
        self.undos.push(undo);
        proof {
            assert(self.ledger() =~= prev.ledger().push(undo@));
            assert(ledger_ok(self.sep(), self.config(), self.ledger())) by {
                assert(self.ledger().last() == undo@);
                assert(self.ledger().drop_last() =~= prev.ledger());
                assert(spec_undo(self.config(), undo@) == prev.config());
            }
        }
        None
    }

    /// Reverses the last applied transition. Fails exactly when there is no
    /// applied transition left to reverse, in which case the configuration
    /// is unchanged.
    pub fn undo_transition(&mut self) -> (r: Result<(), NoUndoError>)
        requires
            old(self).wf(),
        ensures
            final(self).wf(),
            final(self).sep() == old(self).sep(),
            old(self).ledger().len() == 0 ==> r is Err && final(self).config() == old(
                self,
            ).config() && final(self).ledger() == old(self).ledger(),
            old(self).ledger().len() > 0 ==> ({
                &&& r is Ok
                &&& final(self).config() == spec_undo(
                    old(self).config(),
                    old(self).ledger().last(),
                )
                &&& final(self).ledger() == old(self).ledger().drop_last()
            }),
    {
        let undo = match self.undos.pop() {
            Some(undo) => undo,
            None => {
                return Err(NoUndoError);
            },
        };
        proof {
            assert(old(self).ledger().last() == undo@);
            assert(self.ledger() =~= old(self).ledger().drop_last());
            assert(undo_applicable(old(self).config(), undo@));
            assert(self.tape@.len() == self.tape.len());
        }
        if undo.pop {
            self.tape.pop();
        }
        proof {
            assert(self.tape@.len() == self.tape.len());
        }
        if let Some(movement) = undo.movement {
            match movement {
                Movement::R => self.current_position += 1,
                Movement::L => self.current_position -= 1,
            }
        }
        self.tape[self.current_position] = undo.write;
        self.current_state = undo.state;
        proof {
            assert(self.config() =~~= spec_undo(old(self).config(), old(self).ledger().last()));
        }
        Ok(())
    }

    /// Returns the acceptance status of the machine: `None` while it is still
    /// processing. A pure query: it may be called any number of times and
    /// always returns the same answer for the same configuration.
    pub fn acceptance(&self) -> (r: Option<Acceptance>)
        requires
            self.wf(),
        ensures
            r == spec_acceptance(self.sep(), self.config()),
    {
        if self.in_final_state() {
            return Some(Acceptance::Accepted);
        }
        let transition = match self.get_transition() {
            Some(transition) => transition,
            None => {
                return Some(Acceptance::Rejected);
            },
        };
        if self.limited_left(transition) {
            return Some(Acceptance::Rejected);
        }
        None
    }

    /// Returns `true` when the machine is "limited by the left": the head is
    /// at position zero and the given transition would move left.
    fn limited_left(&self, transition: &Transition) -> (r: bool)
        ensures
            r == (self.config().position == 0 && transition@.move_to == Some(Movement::L)),
    {
        if self.current_position == 0 {
            let movement = match transition.move_to {
                Some(movement) => movement,
                None => {
                    return false;
                },
            };
            if movement == Movement::L {
                return true;
            }
        }
        false
    }

    /// Returns `true` when the machine is in a final state.
    fn in_final_state(&self) -> (r: bool)
        ensures
            r == self.sep().final_states.contains(self.config().state),
    {
        sep::contains_string(&self.septuple.final_states, &self.current_state)
    }

    /// Returns, if one exists, the transition for the machine's current
    /// state and the symbol under its head.
    fn get_transition(&self) -> (r: Option<&'machine Transition>)
        requires
            self.config().position < self.config().tape.len(),
        ensures
            match r {
                Some(t) => spec_lookup(
                    self.sep().transition_map,
                    self.config().state,
                    self.config().tape[self.config().position],
                ) == Some(t@),
                None => spec_lookup(
                    self.sep().transition_map,
                    self.config().state,
                    self.config().tape[self.config().position],
                ) is None,
            },
    {
        let current_symbol = self.tape[self.current_position];
        let septuple = self.septuple;
        let entries = &septuple.transition_map;
        let mut i: usize = 0;
        while i < entries.len()
            invariant
                0 <= i <= entries@.len(),
                entries@ == self.septuple.transition_map@,
                current_symbol == self.config().tape[self.config().position],
                lookup_from(self.sep().transition_map, self.current_state@, current_symbol, 0)
                    == lookup_from(
                    self.sep().transition_map,
                    self.current_state@,
                    current_symbol,
                    i as int,
                ),
            decreases entries@.len() - i,
        {
            proof {
                assert(self.sep().transition_map[i as int] == entries@[i as int]@);
            }
            let entry = &entries[i];
            if entry.from_state == self.current_state && entry.read_symbol == current_symbol {
                return Some(&entry.transition);
            }
            i += 1;
        }
        None
    }

    /// Applies the given transition and returns the reversal record that
    /// undoes it.
    ///
    /// Must not be called when the head is at position zero and the
    /// transition moves left: that step is undefined on a left-bounded tape.
    fn apply(&mut self, transition: &'machine Transition) -> (undo: Undo)
        requires
            old(self).config().position < old(self).config().tape.len(),
            !(old(self).config().position == 0 && transition@.move_to == Some(Movement::L)),
        ensures
            final(self).sep() == old(self).sep(),
            final(self).ledger() == old(self).ledger(),
            final(self).config() == step_result(
                old(self).sep().blank_symbol,
                old(self).config(),
                transition@,
            ),
            undo@ == step_undo_rec(old(self).config(), transition@),
    {
        let undo_write = self.tape[self.current_position];
        let undo_state = self.current_state.clone();
        let mut undo_pop = false;
        let mut undo_movement: Option<Movement> = None;

        proof {
            assert(self.tape@.len() == self.tape.len());
        }
        self.tape[self.current_position] = transition.write_symbol;
        self.current_state = transition.next_state.clone();
        match transition.move_to {
            Some(movement) => match movement {
                Movement::R => {
                    if self.current_position == self.tape.len() - 1 {
                        undo_pop = true;
                        self.tape.push(self.septuple.blank_symbol);
                    }
                    undo_movement = Some(Movement::L);
                    proof {
                        assert(self.tape@.len() == self.tape.len());
                    }
                    self.current_position += 1;
                },
                Movement::L => {
                    undo_movement = Some(Movement::R);
                    self.current_position -= 1;
                },
            },
            None => {},
        }

        proof {
            assert(self.config() =~~= step_result(
                old(self).sep().blank_symbol,
                old(self).config(),
                transition@,
            ));
        }
        Undo { pop: undo_pop, movement: undo_movement, write: undo_write, state: undo_state }
    }

    // --- getters
    /// The seven-tuple the machine was built from.
    pub fn septuple(&self) -> (r: &'machine Septuple)
        ensures
            r@ == self.sep(),
    {
        self.septuple
    }

    /// The head's position on the tape.
    pub fn current_position(&self) -> (r: usize)
        ensures
            r == self.config().position,
    {
        self.current_position
    }

    /// The machine's current state.
    pub fn current_state(&self) -> (r: &String)
        ensures
            r@ == self.config().state,
    {
        &self.current_state
    }

    /// The machine's tape.
    pub fn tape(&self) -> (r: &Vec<char>)
        ensures
            r@ == self.config().tape,
    {
        &self.tape
    }
}

/// A lookup that finds a transition finds one of the table's entries, so in a
/// well-formed definition its next state is one of the states and its written
/// symbol one of the alphabet.
proof fn lemma_lookup_entry_wf(sep: SpecSeptuple, state: Seq<char>, symbol: char, i: int)
    requires
        forall|j: int|
            0 <= j < sep.transition_map.len() ==> entry_wf(sep, #[trigger] sep.transition_map[j]),
    ensures
        lookup_from(sep.transition_map, state, symbol, i) matches Some(t) ==> sep.states.contains(
            t.next_state,
        ) && sep.alphabet.contains(t.write_symbol),
    decreases sep.transition_map.len() - i,
{
    if 0 <= i < sep.transition_map.len() {
        lemma_lookup_entry_wf(sep, state, symbol, i + 1);
    }
}

/// One step from a running, well-formed configuration of a well-formed
/// definition reaches a well-formed configuration again.
pub proof fn lemma_step_preserves_wf(sep: SpecSeptuple, c: Config)
    requires
        sep.wf(),
        wf_config(sep, c),
        spec_acceptance(sep, c) is None,
    ensures
        wf_config(sep, spec_step(sep, c).0),
{
    lemma_lookup_entry_wf(sep, c.state, c.tape[c.position], 0);
    let t = spec_lookup(sep.transition_map, c.state, c.tape[c.position]).unwrap();
    let c1 = spec_step(sep, c).0;
    assert forall|i: int| 0 <= i < c1.tape.len() implies sep.alphabet.contains(
        #[trigger] c1.tape[i],
    ) by {
        if i < c.tape.len() && i != c.position {
            assert(c1.tape[i] == c.tape[i]);
        }
    }
}

/// The configuration reached from `c` after `n` applications of the step
/// operation.
pub open spec fn do_steps(sep: SpecSeptuple, c: Config, n: nat) -> Config
    decreases n,
{
    if n == 0 {
        c
    } else {
        spec_step(sep, do_steps(sep, c, (n - 1) as nat)).0
    }
}

/// The reversal records pushed onto the ledger by `n` applications of the
/// step operation from `c`, oldest first.
pub open spec fn step_records(sep: SpecSeptuple, c: Config, n: nat) -> Seq<SpecUndo> {
    Seq::new(n, |i: int| spec_step(sep, do_steps(sep, c, i as nat)).1)
}

/// The configuration reached from `c` by applying the given reversal
/// records, most recent first.
pub open spec fn do_undos(c: Config, records: Seq<SpecUndo>) -> Config
    decreases records.len(),
{
    if records.len() == 0 {
        c
    } else {
        do_undos(spec_undo(c, records.last()), records.drop_last())
    }
}

/// Whether a machine at `c` is still running at each of the first `n`
/// applications of the step operation.
pub open spec fn running_for(sep: SpecSeptuple, c: Config, n: nat) -> bool {
    forall|i: nat| i < n ==> spec_acceptance(sep, #[trigger] do_steps(sep, c, i)) is None
}

/// Every configuration along a run of `n` steps from a well-formed
/// configuration is well formed.
pub proof fn lemma_steps_wf(sep: SpecSeptuple, c: Config, n: nat)
    requires
        sep.wf(),
        wf_config(sep, c),
        running_for(sep, c, n),
    ensures
        wf_config(sep, do_steps(sep, c, n)),
    decreases n,
{
    if n > 0 {
        let m = (n - 1) as nat;
        assert forall|i: nat| i < m implies spec_acceptance(
            sep,
            #[trigger] do_steps(sep, c, i),
        ) is None by {}
        lemma_steps_wf(sep, c, m);
        assert(spec_acceptance(sep, do_steps(sep, c, m)) is None);
        lemma_step_preserves_wf(sep, do_steps(sep, c, m));
    }
}

/// Round trip: from any well-formed configuration of a well-formed
/// definition, applying `n` steps while the machine keeps running and then
/// undoing the `n` recorded reversals, most recent first, restores the
/// original tape, head position and state exactly.
pub proof fn lemma_round_trip(sep: SpecSeptuple, c: Config, n: nat)
    requires
        sep.wf(),
        wf_config(sep, c),
        running_for(sep, c, n),
    ensures
        do_undos(do_steps(sep, c, n), step_records(sep, c, n)) == c,
    decreases n,
{
    if n == 0 {
        assert(step_records(sep, c, 0).len() == 0);
    } else {
        let m = (n - 1) as nat;
        let cprev = do_steps(sep, c, m);
        assert forall|i: nat| i < m implies spec_acceptance(
            sep,
            #[trigger] do_steps(sep, c, i),
        ) is None by {}
        lemma_steps_wf(sep, c, m);
        assert(spec_acceptance(sep, cprev) is None);
        let t = spec_lookup(sep.transition_map, cprev.state, cprev.tape[cprev.position]).unwrap();
        lemma_step_undo_inverse(sep.blank_symbol, cprev, t);
        let records = step_records(sep, c, n);
        assert(records.last() == spec_step(sep, cprev).1);
        assert(records.drop_last() =~= step_records(sep, c, m));
        assert(do_steps(sep, c, n) == spec_step(sep, cprev).0);
        lemma_round_trip(sep, c, m);
    }
}

/// At the left boundary, with the applicable transition moving left, the
/// status is `Rejected`: a left move off the bounded tape is undefined and
/// treated as rejection.
pub proof fn lemma_left_boundary_rejects(sep: SpecSeptuple, c: Config, t: SpecTransition)
    requires
        c.position == 0,
        !sep.final_states.contains(c.state),
        spec_lookup(sep.transition_map, c.state, c.tape[c.position]) == Some(t),
        t.move_to == Some(Movement::L),
    ensures
        spec_acceptance(sep, c) == Some(Acceptance::Rejected),
{
}

/// A right move from the last tape index appends exactly one blank cell,
/// and the recorded reversal removes exactly that cell, restoring the prior
/// tape, head position and state.
pub proof fn lemma_right_growth(sep: SpecSeptuple, c: Config, t: SpecTransition)
    requires
        0 <= c.position < c.tape.len(),
        c.position == c.tape.len() - 1,
        spec_lookup(sep.transition_map, c.state, c.tape[c.position]) == Some(t),
        t.move_to == Some(Movement::R),
    ensures
        spec_step(sep, c).0.tape.len() == c.tape.len() + 1,
        spec_step(sep, c).0.tape.last() == sep.blank_symbol,
        spec_step(sep, c).1.pop,
        spec_undo(spec_step(sep, c).0, spec_step(sep, c).1) == c,
{
    lemma_step_undo_inverse(sep.blank_symbol, c, t);
}

/// The reversal record of a step is valid on the configuration the step
/// reaches, and applying it restores the configuration the step started
/// from, exactly.
pub proof fn lemma_step_undo_inverse(blank: char, c: Config, t: SpecTransition)
    requires
        0 <= c.position < c.tape.len(),
        !(c.position == 0 && t.move_to == Some(Movement::L)),
    ensures
        undo_applicable(step_result(blank, c, t), step_undo_rec(c, t)),
        spec_undo(step_result(blank, c, t), step_undo_rec(c, t)) == c,
{
    let c1 = step_result(blank, c, t);
    let u = step_undo_rec(c, t);
    let written = c.tape.update(c.position, t.write_symbol);
    if u.pop {
        assert(c1.tape.drop_last() =~= written);
    }
    assert(spec_undo(c1, u) =~~= c);
}

} // verus!
