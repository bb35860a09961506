//! A snapshot in words, for the log.

use vstd::prelude::*;
use vstd::string::StringExecFns;
use crate::text::{decimal, push_decimal};

verus! {

/// The name of the button at a position of the controller layout.
pub open spec fn button_name(i: int) -> Seq<char> {
    if i == 0 {
        "A"@
    } else if i == 1 {
        "B"@
    } else if i == 2 {
        "X"@
    } else if i == 3 {
        "Y"@
    } else if i == 4 {
        "LB"@
    } else if i == 5 {
        "RB"@
    } else if i == 6 {
        "Back"@
    } else if i == 7 {
        "Start"@
    } else if i == 8 {
        "Guide"@
    } else if i == 9 {
        "L3"@
    } else {
        "R3"@
    }
}

/// The labels of the buttons that are down among the first `n`.
pub open spec fn button_labels(buttons: Seq<bool>, n: int) -> Seq<Seq<char>>
    decreases n,
{
    if n <= 0 {
        Seq::empty()
    } else if buttons[n - 1] {
        button_labels(buttons, n - 1).push("BTN."@ + button_name(n - 1))
    } else {
        button_labels(buttons, n - 1)
    }
}

/// The label of an axis with two directions: none while it rests at zero.
pub open spec fn direction_label(positive: Seq<char>, negative: Seq<char>, value: i16) -> Seq<
    Seq<char>,
> {
    if value > 0 {
        seq![positive]
    } else if value < 0 {
        seq![negative]
    } else {
        Seq::empty()
    }
}

/// The label of a trigger: its name and its value while that is above zero.
pub open spec fn trigger_label(name: Seq<char>, value: i16) -> Seq<Seq<char>> {
    if value > 0 {
        seq![name + decimal(value as nat)]
    } else {
        Seq::empty()
    }
}

/// The labels of a snapshot: buttons that are down, then the axes that are
/// off zero, in layout order.
pub open spec fn description_parts(buttons: Seq<bool>, axes: Seq<i16>) -> Seq<Seq<char>> {
    button_labels(buttons, 11) + direction_label(
        "joystick_left derecha"@,
        "joystick_left izquierda"@,
        axes[0],
    ) + direction_label("joystick_left abajo"@, "joystick_left arriba"@, axes[1])
        + direction_label("joystick_right derecha"@, "joystick_right izquierda"@, axes[2])
        + direction_label("joystick_right abajo"@, "joystick_right arriba"@, axes[3])
        + trigger_label("trigger_left "@, axes[4]) + trigger_label("trigger_right "@, axes[5])
        + direction_label("dpad derecha"@, "dpad izquierda"@, axes[6]) + direction_label(
        "dpad abajo"@,
        "dpad arriba"@,
        axes[7],
    )
}

/// Labels in one line, with a comma and a space between them.
pub open spec fn joined(parts: Seq<Seq<char>>) -> Seq<char>
    decreases parts.len(),
{
    if parts.len() == 0 {
        Seq::empty()
    } else if parts.len() == 1 {
        parts[0]
    } else {
        joined(parts.drop_last()) + ", "@ + parts.last()
    }
}

/// The description of a snapshot: its labels in one line, or a fixed text
/// where nothing is down and every axis rests.
pub open spec fn description(buttons: Seq<bool>, axes: Seq<i16>) -> Seq<char> {
    if description_parts(buttons, axes).len() == 0 {
        "(sin acción)"@
    } else {
        joined(description_parts(buttons, axes))
    }
}

fn button_name_str(i: usize) -> (name: &'static str)
    requires
        i < 11,
    ensures
        name@ == button_name(i as int),
{
    if i == 0 {
        "A"
    } else if i == 1 {
        "B"
    } else if i == 2 {
        "X"
    } else if i == 3 {
        "Y"
    } else if i == 4 {
        "LB"
    } else if i == 5 {
        "RB"
    } else if i == 6 {
        "Back"
    } else if i == 7 {
        "Start"
    } else if i == 8 {
        "Guide"
    } else if i == 9 {
        "L3"
    } else {
        "R3"
    }
}

/// The line under construction: its text, and the labels it is made of.
struct Line {
    text: String,
    any: bool,
    parts: Ghost<Seq<Seq<char>>>,
}

impl Line {
    spec fn wf(self) -> bool {
        &&& self.text@ == joined(self.parts@)
        &&& self.any == (self.parts@.len() > 0)
    }

    fn new() -> (line: Line)
        ensures
            line.wf(),
            line.parts@ == Seq::<Seq<char>>::empty(),
    {
        Line { text: String::new(), any: false, parts: Ghost(Seq::empty()) }
    }

    fn push(&mut self, label: &str)
        requires
            old(self).wf(),
        ensures
            final(self).wf(),
            final(self).parts@ == old(self).parts@.push(label@),
    {
        let ghost before = self.parts@;
        if self.any {
            self.text.append(", ");
        }
        self.text.append(label);
        self.any = true;
        self.parts = Ghost(before.push(label@));
        proof {
            let now = before.push(label@);
            assert(now.drop_last() =~= before);
            assert(now.last() == label@);
            if before.len() == 0 {
                assert(self.text@ =~= label@);
            }
        }
    }

    fn push_direction(&mut self, positive: &str, negative: &str, value: i16)
        requires
            old(self).wf(),
        ensures
            final(self).wf(),
            final(self).parts@ == old(self).parts@ + direction_label(positive@, negative@, value),
    {
        if value > 0 {
            self.push(positive);
        } else if value < 0 {
            self.push(negative);
        }
        assert(self.parts@ =~= old(self).parts@ + direction_label(positive@, negative@, value));
    }

    fn push_trigger(&mut self, name: &str, value: i16)
        requires
            old(self).wf(),
        ensures
            final(self).wf(),
            final(self).parts@ == old(self).parts@ + trigger_label(name@, value),
    {
        if value > 0 {
            let mut label = String::from_str(name);
            push_decimal(&mut label, value as u16);
            self.push(label.as_str());
        }
        assert(self.parts@ =~= old(self).parts@ + trigger_label(name@, value));
    }
}

/// Describes a snapshot in one line.
pub fn describe_snapshot(buttons: &[bool; 11], axes: &[i16; 8]) -> (text: String)
    ensures
        text@ == description(buttons@, axes@),
{
    let mut line = Line::new();
    let mut i: usize = 0;
    while i < 11
        invariant
            i <= 11,
            line.wf(),
            line.parts@ == button_labels(buttons@, i as int),
        decreases 11 - i,
    {
        if buttons[i] {
            let mut label = String::from_str("BTN.");
            label.append(button_name_str(i));
            line.push(label.as_str());
        }
        i += 1;
    }
    line.push_direction("joystick_left derecha", "joystick_left izquierda", axes[0]);
    line.push_direction("joystick_left abajo", "joystick_left arriba", axes[1]);
    line.push_direction("joystick_right derecha", "joystick_right izquierda", axes[2]);
    line.push_direction("joystick_right abajo", "joystick_right arriba", axes[3]);
    line.push_trigger("trigger_left ", axes[4]);
    line.push_trigger("trigger_right ", axes[5]);
    line.push_direction("dpad derecha", "dpad izquierda", axes[6]);
    line.push_direction("dpad abajo", "dpad arriba", axes[7]);
    assert(line.parts@ == description_parts(buttons@, axes@));
    if line.any {
        line.text
    } else {
        String::from_str("(sin acción)")
    }
}

} // verus!
