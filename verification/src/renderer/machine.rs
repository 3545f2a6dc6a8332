//! The protocol state machine. It is the `vte` crate's parser; this file
//! holds what the library assumes of it and the actions it reports.

use vstd::prelude::*;

verus! {

/// The state machine of the `vte` crate, opaque to the verifier.
#[verifier::external_type_specification]
#[verifier::external_body]
pub struct ExMachine<const OSC_RAW_BUF_SIZE: usize>(vte::Parser<OSC_RAW_BUF_SIZE>);

/// The parameter list of a control sequence, opaque to the verifier.
#[verifier::external_type_specification]
#[verifier::external_body]
pub struct ExParams(vte::Params);

/// One action that the state machine asks its host to perform.
#[derive(Debug, PartialEq, Eq)]
pub enum Action {
    /// Draw a character.
    Print(char),
    /// Execute a control byte.
    Execute(u8),
    /// A device control string begins.
    Hook,
    /// One byte of a device control string.
    Put(u8),
    /// A device control string ends.
    Unhook,
    /// An operating system command.
    OscDispatch,
    /// An escape sequence with this final byte.
    EscDispatch(u8),
    /// A control sequence: the leading value of each of its parameters, in
    /// order, and its final character.
    CsiDispatch { params: Vec<u16>, action: char },
}

/// An action as a plain value.
pub enum ActionView {
    Print(char),
    Execute(u8),
    Hook,
    Put(u8),
    Unhook,
    OscDispatch,
    EscDispatch(u8),
    CsiDispatch { params: Seq<u16>, action: char },
}

impl View for Action {
    type V = ActionView;

    open spec fn view(&self) -> ActionView {
        match *self {
            Action::Print(c) => ActionView::Print(c),
            Action::Execute(byte) => ActionView::Execute(byte),
            Action::Hook => ActionView::Hook,
            Action::Put(byte) => ActionView::Put(byte),
            Action::Unhook => ActionView::Unhook,
            Action::OscDispatch => ActionView::OscDispatch,
            Action::EscDispatch(byte) => ActionView::EscDispatch(byte),
            Action::CsiDispatch { params, action } => ActionView::CsiDispatch {
                params: params@,
                action,
            },
        }
    }
}

/// The actions of a list as plain values.
pub open spec fn action_views(actions: Seq<Action>) -> Seq<ActionView> {
    Seq::new(actions.len(), |i: int| actions[i]@)
}

/// What feeding `byte` to `machine` brings: the state in which the
/// machine is afterwards, and the actions that it asks for, in order.
pub uninterp spec fn stepped(machine: vte::Parser, byte: u8) -> (vte::Parser, Seq<ActionView>);

/// Whether `machine` is in its ground state: outside any escape, control
/// or string sequence and outside a multi-byte character.
pub uninterp spec fn at_ground(machine: vte::Parser) -> bool;

/// The leading values of a parameter list: the first value of each
/// parameter, in order.
pub uninterp spec fn leading(params: vte::Params) -> Seq<u16>;

/// Gathers the actions that the state machine asks for.
struct Recorder {
    actions: Vec<Action>,
}

impl Recorder {
    /// The actions gathered so far, as plain values.
    pub closed spec fn gathered(self) -> Seq<ActionView> {
        action_views(self.actions@)
    }

    /// Adds one action at the end of those gathered.
    fn record(&mut self, action: Action)
        ensures
            final(self).gathered() == old(self).gathered().push(action@),
    {
        self.actions.push(action);
        assert(self.gathered() =~= old(self).gathered().push(action@));
    }
}

impl vte::Perform for Recorder {
    fn print(&mut self, c: char)
        ensures
            final(self).gathered() == old(self).gathered().push(ActionView::Print(c)),
    {
        self.record(Action::Print(c));
    }

    fn execute(&mut self, byte: u8)
        ensures
            final(self).gathered() == old(self).gathered().push(ActionView::Execute(byte)),
    {
        self.record(Action::Execute(byte));
    }

    fn hook(&mut self, _params: &vte::Params, _intermediates: &[u8], _ignore: bool, _action: char)
        ensures
            final(self).gathered() == old(self).gathered().push(ActionView::Hook),
    {
        self.record(Action::Hook);
    }

    fn put(&mut self, byte: u8)
        ensures
            final(self).gathered() == old(self).gathered().push(ActionView::Put(byte)),
    {
        self.record(Action::Put(byte));
    }

    fn unhook(&mut self)
        ensures
            final(self).gathered() == old(self).gathered().push(ActionView::Unhook),
    {
        self.record(Action::Unhook);
    }

    fn osc_dispatch(&mut self, _params: &[&[u8]], _bell_terminated: bool)
        ensures
            final(self).gathered() == old(self).gathered().push(ActionView::OscDispatch),
    {
        self.record(Action::OscDispatch);
    }

    fn csi_dispatch(
        &mut self,
        params: &vte::Params,
        _intermediates: &[u8],
        _ignore: bool,
        action: char,
    )
        ensures
            final(self).gathered() == old(self).gathered().push(
                ActionView::CsiDispatch { params: leading(*params), action },
            ),
    {
        self.record(Action::CsiDispatch { params: leading_values(params), action });
    }

    fn esc_dispatch(&mut self, _intermediates: &[u8], _ignore: bool, byte: u8)
        ensures
            final(self).gathered() == old(self).gathered().push(ActionView::EscDispatch(byte)),
    {
        self.record(Action::EscDispatch(byte));
    }
}

/// `vte::Params::iter`: the first value of each parameter, in order; the
/// sub-parameters that follow it after a colon are left out. The claim is
/// that the values depend on the parameter list alone.
#[verifier::external_body]
fn leading_values(params: &vte::Params) -> (values: Vec<u16>)
    ensures
        values@ == leading(*params),
{
    params.iter().map(|group| group[0]).collect()
}

/// `vte::Parser::new`: a new state machine. The claim is that it starts in
/// its ground state.
#[verifier::external_body]
pub(crate) fn new_machine() -> (machine: vte::Parser)
    ensures
        at_ground(machine),
{
    vte::Parser::new()
}

/// `vte::Parser::advance` with a `Recorder` as its performer: feeds one
/// byte to the state machine and hands back the actions it asked for. The
/// claims are that the actions and the state after the call depend on the
/// state before it and the byte alone, and that a machine in its ground
/// state answers a byte from 0x20 to 0x7f by printing that byte as a
/// character and stays in its ground state.
#[verifier::external_body]
pub(crate) fn feed(machine: &mut vte::Parser, byte: u8) -> (actions: Vec<Action>)
    ensures
        (*final(machine), action_views(actions@)) == stepped(*old(machine), byte),
        at_ground(*old(machine)) && 0x20 <= byte <= 0x7f ==> at_ground(*final(machine))
            && action_views(actions@) == seq![ActionView::Print(byte as char)],
{
    let mut recorder = Recorder { actions: Vec::new() };
    machine.advance(&mut recorder, byte);
    recorder.actions
}

} // verus!
