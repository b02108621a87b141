use vstd::prelude::*;

verus! {

/// What a key press asks the running program to do.
#[derive(Clone, Copy, Debug, PartialEq, Eq, Structural)]
pub enum Control {
    Quit,
    ToggleColorMode,
    ToggleRamp,
    ToggleMetrics,
    IncreaseGamma,
    DecreaseGamma,
    IncreaseContrast,
    DecreaseContrast,
    ToggleFooter,
    ToggleMirror,
}

/// Which phase of a key stroke an event reports.
#[derive(Clone, Copy, Debug, PartialEq, Eq, Structural)]
pub enum KeyPhase {
    Press,
    Repeat,
    Release,
}

/// The key of a key event: Escape, a character key, or any other key.
#[derive(Clone, Copy, Debug, PartialEq, Eq, Structural)]
pub enum KeyInput {
    Esc,
    Char(char),
    Other,
}

/// The control a key event asks for; releases and unbound keys ask for none.
pub open spec fn control_of(phase: KeyPhase, key: KeyInput) -> Option<Control> {
    if phase == KeyPhase::Release {
        None
    } else {
        match key {
            KeyInput::Esc => Some(Control::Quit),
            KeyInput::Char(c) => if c == 'q' || c == 'Q' {
                Some(Control::Quit)
            } else if c == 'c' || c == 'C' {
                Some(Control::ToggleColorMode)
            } else if c == 'r' || c == 'R' {
                Some(Control::ToggleRamp)
            } else if c == 'm' || c == 'M' {
                Some(Control::ToggleMetrics)
            } else if c == '=' || c == '+' {
                Some(Control::IncreaseGamma)
            } else if c == '-' {
                Some(Control::DecreaseGamma)
            } else if c == ']' {
                Some(Control::IncreaseContrast)
            } else if c == '[' {
                Some(Control::DecreaseContrast)
            } else if c == 'h' {
                Some(Control::ToggleFooter)
            } else if c == 'v' {
                Some(Control::ToggleMirror)
            } else {
                None
            },
            KeyInput::Other => None,
        }
    }
}

/// The control a key event asks for.
pub fn control_for_key(phase: KeyPhase, key: KeyInput) -> (r: Option<Control>)
    ensures
        r == control_of(phase, key),
{
    if phase != KeyPhase::Press && phase != KeyPhase::Repeat {
        return None;
    }
    match key {
        KeyInput::Esc => Some(Control::Quit),
        KeyInput::Char(c) => {
            if c == 'q' || c == 'Q' {
                Some(Control::Quit)
            } else if c == 'c' || c == 'C' {
                Some(Control::ToggleColorMode)
            } else if c == 'r' || c == 'R' {
                Some(Control::ToggleRamp)
            } else if c == 'm' || c == 'M' {
                Some(Control::ToggleMetrics)
            } else if c == '=' || c == '+' {
                Some(Control::IncreaseGamma)
            } else if c == '-' {
                Some(Control::DecreaseGamma)
            } else if c == ']' {
                Some(Control::IncreaseContrast)
            } else if c == '[' {
                Some(Control::DecreaseContrast)
            } else if c == 'h' {
                Some(Control::ToggleFooter)
            } else if c == 'v' {
                Some(Control::ToggleMirror)
            } else {
                None
            }
        },
        KeyInput::Other => None,
    }
}

/// The documented key bindings: on a press or a repeat, `q`, `Q` and Esc quit, `c`/`C` cycle
/// the color mode, `r`/`R` the ramp, `m`/`M` toggle metrics, `+`/`=` and `-` raise and lower
/// gamma, `]` and `[` raise and lower contrast, `h` toggles the footer and `v` the mirror;
/// a key release never asks for anything.
pub proof fn law_documented_keys(phase: KeyPhase, key: KeyInput)
    ensures
        phase == KeyPhase::Release ==> control_of(phase, key) is None,
        phase != KeyPhase::Release ==> {
            &&& control_of(phase, KeyInput::Esc) == Some(Control::Quit)
            &&& control_of(phase, KeyInput::Char('q')) == Some(Control::Quit)
            &&& control_of(phase, KeyInput::Char('Q')) == Some(Control::Quit)
            &&& control_of(phase, KeyInput::Char('c')) == Some(Control::ToggleColorMode)
            &&& control_of(phase, KeyInput::Char('C')) == Some(Control::ToggleColorMode)
            &&& control_of(phase, KeyInput::Char('r')) == Some(Control::ToggleRamp)
            &&& control_of(phase, KeyInput::Char('R')) == Some(Control::ToggleRamp)
            &&& control_of(phase, KeyInput::Char('m')) == Some(Control::ToggleMetrics)
            &&& control_of(phase, KeyInput::Char('M')) == Some(Control::ToggleMetrics)
            &&& control_of(phase, KeyInput::Char('+')) == Some(Control::IncreaseGamma)
            &&& control_of(phase, KeyInput::Char('=')) == Some(Control::IncreaseGamma)
            &&& control_of(phase, KeyInput::Char('-')) == Some(Control::DecreaseGamma)
            &&& control_of(phase, KeyInput::Char(']')) == Some(Control::IncreaseContrast)
            &&& control_of(phase, KeyInput::Char('[')) == Some(Control::DecreaseContrast)
            &&& control_of(phase, KeyInput::Char('h')) == Some(Control::ToggleFooter)
            &&& control_of(phase, KeyInput::Char('v')) == Some(Control::ToggleMirror)
            &&& control_of(phase, KeyInput::Other) is None
        },
{
}

/// Each control is asked for by exactly the keys documented for it: a character key that asks
/// for quitting is `q` or `Q`, and so on, and every other character asks for nothing.
pub proof fn law_keys_are_exactly_documented(phase: KeyPhase, c: char)
    requires
        phase != KeyPhase::Release,
    ensures
        control_of(phase, KeyInput::Char(c)) == Some(Control::Quit) <==> (c == 'q' || c == 'Q'),
        control_of(phase, KeyInput::Char(c)) == Some(Control::ToggleColorMode) <==> (c == 'c' || c == 'C'),
        control_of(phase, KeyInput::Char(c)) == Some(Control::ToggleRamp) <==> (c == 'r' || c == 'R'),
        control_of(phase, KeyInput::Char(c)) == Some(Control::ToggleMetrics) <==> (c == 'm' || c == 'M'),
        control_of(phase, KeyInput::Char(c)) == Some(Control::IncreaseGamma) <==> (c == '+' || c == '='),
        control_of(phase, KeyInput::Char(c)) == Some(Control::DecreaseGamma) <==> c == '-',
        control_of(phase, KeyInput::Char(c)) == Some(Control::IncreaseContrast) <==> c == ']',
        control_of(phase, KeyInput::Char(c)) == Some(Control::DecreaseContrast) <==> c == '[',
        control_of(phase, KeyInput::Char(c)) == Some(Control::ToggleFooter) <==> c == 'h',
        control_of(phase, KeyInput::Char(c)) == Some(Control::ToggleMirror) <==> c == 'v',
{
}

/// The controls that a run of key events asks for, in order.
pub open spec fn controls_of(events: Seq<(KeyPhase, KeyInput)>) -> Seq<Control>
    decreases events.len(),
{
    if events.len() == 0 {
        Seq::empty()
    } else {
        let rest = controls_of(events.drop_last());
        match control_of(events.last().0, events.last().1) {
            Some(c) => rest.push(c),
            None => rest,
        }
    }
}

/// The controls that a run of key events asks for, in order.
pub fn controls_for_keys(events: &Vec<(KeyPhase, KeyInput)>) -> (r: Vec<Control>)
    ensures
        r@ == controls_of(events@),
{
    let mut out: Vec<Control> = Vec::new();
    let mut i: usize = 0;
    while i < events.len()
        invariant
            i <= events@.len(),
            out@ == controls_of(events@.take(i as int)),
        decreases events@.len() - i,
    {
        assert(events@.take(i + 1).drop_last() =~= events@.take(i as int));
        let (phase, key) = events[i];
        if let Some(c) = control_for_key(phase, key) {
            out.push(c);
        }
        i = i + 1;
    }
    assert(events@.take(i as int) =~= events@);
    out
}

} // verus!
