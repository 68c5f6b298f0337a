//! Tests of the execution engine: stepping, acceptance, and undo.

use tm::machine::sep::{JsonSeptuple, JsonTransition, Movement, Septuple};
use tm::machine::{Acceptance, Machine};

fn trans(
    from: &str,
    read: char,
    write: char,
    move_to: Option<Movement>,
    next: &str,
) -> JsonTransition {
    JsonTransition {
        from_state: from.to_string(),
        read_symbol: read,
        write_symbol: write,
        next_state: next.to_string(),
        move_to,
    }
}

/// A "zero n, one n" Turing machine, looking for *n* zero symbols followed
/// by *n* one symbols.
fn zeron_onen() -> Septuple {
    let septuple = Septuple::from_parts(JsonSeptuple {
        alphabet: vec!['0', '1', 'X', 'Y', 'B'],
        blank_symbol: 'B',
        input_symbols: vec!['0', '1'],
        states: vec![
            "q0".to_string(),
            "q1".to_string(),
            "q2".to_string(),
            "q3".to_string(),
            "q4".to_string(),
        ],
        initial_state: "q0".to_string(),
        final_states: vec!["q3".to_string()],
        transitions: vec![
            trans("q0", '0', 'X', Some(Movement::R), "q1"),
            trans("q0", 'B', 'B', Some(Movement::R), "q3"),
            trans("q0", 'Y', 'Y', Some(Movement::R), "q4"),
            trans("q1", '0', '0', Some(Movement::R), "q1"),
            trans("q1", 'Y', 'Y', Some(Movement::R), "q1"),
            trans("q1", '1', 'Y', Some(Movement::L), "q2"),
            trans("q2", '0', '0', Some(Movement::L), "q2"),
            trans("q2", 'Y', 'Y', Some(Movement::L), "q2"),
            trans("q2", 'X', 'X', Some(Movement::R), "q0"),
            trans("q4", 'Y', 'Y', Some(Movement::R), "q4"),
            trans("q4", 'B', 'B', Some(Movement::R), "q3"),
        ],
    });
    assert!(septuple.valid().is_ok());
    septuple
}

#[test]
fn test_zeron_onen() {
    let septuple = zeron_onen();

    let mut tm = Machine::new(&septuple, vec!['0', '1']).unwrap();
    while tm.transition().is_none() {}
    assert_eq!(tm.transition().unwrap(), Acceptance::Accepted);

    let mut tm = Machine::new(&septuple, vec!['1', '0']).unwrap();
    while tm.transition().is_none() {}
    assert_eq!(tm.transition().unwrap(), Acceptance::Rejected);

    let mut tm = Machine::new(&septuple, vec!['0', '0', '0', '1', '1', '1']).unwrap();
    while tm.transition().is_none() {}
    assert_eq!(tm.transition().unwrap(), Acceptance::Accepted);
}

#[test]
fn test_undo() {
    let septuple = zeron_onen();
    let initial_tape = vec!['0', '0', '1', '1'];
    let mut tm = Machine::new(&septuple, initial_tape.clone()).unwrap();

    // runs the machine to its acceptance state
    while tm.transition().is_none() {}
    assert_eq!(tm.tape(), &vec!['X', 'X', 'Y', 'Y', 'B', 'B']);
    assert_eq!(tm.transition().unwrap(), Acceptance::Accepted);

    // undoes the machine's transitions until it is back at the start
    while tm.undo_transition().is_ok() {}
    assert_eq!(tm.tape(), &initial_tape);
    assert_eq!(tm.current_state(), &tm.septuple().initial_state);
    assert_eq!(tm.current_position(), 0);
}

#[test]
fn construct_accepts_input_symbols() {
    let septuple = zeron_onen();
    assert!(Machine::new(&septuple, vec!['0', '1', '0', '1']).is_ok());
    assert!(Machine::new(&septuple, vec![]).is_ok());
}

#[test]
fn construct_rejects_non_input_symbols() {
    let septuple = zeron_onen();
    // in the alphabet, but not an input symbol
    assert!(Machine::new(&septuple, vec!['0', 'X']).is_err());
    // outside the alphabet entirely
    assert!(Machine::new(&septuple, vec!['z']).is_err());
}

#[test]
fn construct_replaces_empty_tape_with_blank() {
    let septuple = zeron_onen();
    let mut tm = Machine::new(&septuple, vec![]).unwrap();
    assert_eq!(tm.tape(), &vec!['B']);
    assert_eq!(tm.current_position(), 0);
    assert_eq!(tm.current_state(), &"q0".to_string());
    // the empty word is accepted by this machine: q0 on B goes to q3
    assert!(tm.transition().is_none());
    assert_eq!(tm.transition(), Some(Acceptance::Accepted));
}

#[test]
fn undo_on_fresh_machine_fails_and_changes_nothing() {
    let septuple = zeron_onen();
    let mut tm = Machine::new(&septuple, vec!['0', '1']).unwrap();
    assert!(tm.undo_transition().is_err());
    assert_eq!(tm.tape(), &vec!['0', '1']);
    assert_eq!(tm.current_position(), 0);
    assert_eq!(tm.current_state(), &"q0".to_string());
}

/// A one-state machine whose only transition moves left immediately.
fn left_mover() -> Septuple {
    Septuple::from_parts(JsonSeptuple {
        alphabet: vec!['x', 'B'],
        blank_symbol: 'B',
        input_symbols: vec!['x'],
        states: vec!["a".to_string()],
        initial_state: "a".to_string(),
        final_states: vec![],
        transitions: vec![trans("a", 'x', 'x', Some(Movement::L), "a")],
    })
}

#[test]
fn left_move_at_position_zero_rejects_without_mutation() {
    let septuple = left_mover();
    assert!(septuple.valid().is_ok());
    let mut tm = Machine::new(&septuple, vec!['x', 'x']).unwrap();
    assert_eq!(tm.acceptance(), Some(Acceptance::Rejected));
    assert_eq!(tm.transition(), Some(Acceptance::Rejected));
    assert_eq!(tm.tape(), &vec!['x', 'x']);
    assert_eq!(tm.current_position(), 0);
    assert_eq!(tm.current_state(), &"a".to_string());
}

/// A one-state machine that walks right forever, rewriting its cell.
fn right_mover() -> Septuple {
    Septuple::from_parts(JsonSeptuple {
        alphabet: vec!['x', 'y', 'B'],
        blank_symbol: 'B',
        input_symbols: vec!['x'],
        states: vec!["a".to_string()],
        initial_state: "a".to_string(),
        final_states: vec![],
        transitions: vec![
            trans("a", 'x', 'y', Some(Movement::R), "a"),
            trans("a", 'B', 'y', Some(Movement::R), "a"),
        ],
    })
}

#[test]
fn right_move_from_last_index_grows_tape_by_one_blank() {
    let septuple = right_mover();
    assert!(septuple.valid().is_ok());
    let mut tm = Machine::new(&septuple, vec!['x']).unwrap();
    assert!(tm.transition().is_none());
    assert_eq!(tm.tape(), &vec!['y', 'B']);
    assert_eq!(tm.current_position(), 1);
    // undoing that step removes exactly the grown cell
    assert!(tm.undo_transition().is_ok());
    assert_eq!(tm.tape(), &vec!['x']);
    assert_eq!(tm.current_position(), 0);
}

#[test]
fn acceptance_is_idempotent_and_pure() {
    let septuple = zeron_onen();
    let mut tm = Machine::new(&septuple, vec!['0', '1']).unwrap();
    let first = tm.acceptance();
    let second = tm.acceptance();
    assert_eq!(first, second);
    assert_eq!(tm.tape(), &vec!['0', '1']);
    assert_eq!(tm.current_position(), 0);
    assert_eq!(tm.current_state(), &"q0".to_string());
    // the same holds mid-run and at the end of a run
    while tm.transition().is_none() {}
    assert_eq!(tm.acceptance(), tm.acceptance());
    assert_eq!(tm.acceptance(), Some(Acceptance::Accepted));
}

#[test]
fn step_after_terminal_acceptance_repeats_it_without_mutation() {
    let septuple = zeron_onen();
    let mut tm = Machine::new(&septuple, vec!['0', '1']).unwrap();
    while tm.transition().is_none() {}
    let tape = tm.tape().clone();
    let position = tm.current_position();
    let state = tm.current_state().clone();
    assert_eq!(tm.transition(), Some(Acceptance::Accepted));
    assert_eq!(tm.transition(), Some(Acceptance::Accepted));
    assert_eq!(tm.tape(), &tape);
    assert_eq!(tm.current_position(), position);
    assert_eq!(tm.current_state(), &state);

    let mut tm = Machine::new(&septuple, vec!['1']).unwrap();
    while tm.transition().is_none() {}
    assert_eq!(tm.transition(), Some(Acceptance::Rejected));
    assert_eq!(tm.transition(), Some(Acceptance::Rejected));
}

#[test]
fn end_to_end_zero_count_one_count() {
    let septuple = zeron_onen();

    let mut tm = Machine::new(&septuple, vec!['0', '1']).unwrap();
    while tm.transition().is_none() {}
    assert_eq!(tm.acceptance(), Some(Acceptance::Accepted));

    let mut tm = Machine::new(&septuple, vec!['1', '0']).unwrap();
    while tm.transition().is_none() {}
    assert_eq!(tm.acceptance(), Some(Acceptance::Rejected));

    let initial_tape = vec!['0', '0', '0', '1', '1', '1'];
    let mut tm = Machine::new(&septuple, initial_tape.clone()).unwrap();
    let mut steps = 0;
    while tm.transition().is_none() {
        steps += 1;
    }
    assert_eq!(tm.acceptance(), Some(Acceptance::Accepted));
    assert_eq!(tm.tape(), &vec!['X', 'X', 'X', 'Y', 'Y', 'Y', 'B', 'B']);

    // fully undoing the accepted run restores the original configuration
    let mut undos = 0;
    while tm.undo_transition().is_ok() {
        undos += 1;
    }
    assert_eq!(steps, undos);
    assert_eq!(tm.tape(), &initial_tape);
    assert_eq!(tm.current_position(), 0);
    assert_eq!(tm.current_state(), &"q0".to_string());
}

#[test]
fn transition_without_movement_keeps_position_and_undoes() {
    let septuple = Septuple::from_parts(JsonSeptuple {
        alphabet: vec!['x', 'y', 'B'],
        blank_symbol: 'B',
        input_symbols: vec!['x'],
        states: vec!["a".to_string(), "b".to_string()],
        initial_state: "a".to_string(),
        final_states: vec!["b".to_string()],
        transitions: vec![trans("a", 'x', 'y', None, "b")],
    });
    assert!(septuple.valid().is_ok());
    let mut tm = Machine::new(&septuple, vec!['x']).unwrap();
    assert!(tm.transition().is_none());
    assert_eq!(tm.tape(), &vec!['y']);
    assert_eq!(tm.current_position(), 0);
    assert_eq!(tm.current_state(), &"b".to_string());
    assert_eq!(tm.acceptance(), Some(Acceptance::Accepted));
    assert!(tm.undo_transition().is_ok());
    assert_eq!(tm.tape(), &vec!['x']);
    assert_eq!(tm.current_position(), 0);
    assert_eq!(tm.current_state(), &"a".to_string());
}

#[test]
fn undo_returns_from_terminal_acceptance_to_running() {
    let septuple = zeron_onen();
    let mut tm = Machine::new(&septuple, vec!['0', '1']).unwrap();
    while tm.transition().is_none() {}
    assert_eq!(tm.acceptance(), Some(Acceptance::Accepted));
    assert!(tm.undo_transition().is_ok());
    assert_eq!(tm.acceptance(), None);
}
