//! The parts a circuit is drawn from: what kinds exist, how each is
//! labelled, and the data each kind of part carries.

use vstd::prelude::*;

verus! {

/// Every kind of part that can be placed on a canvas.
#[derive(Debug, Clone, PartialEq, Eq, Hash)]
pub enum PartType {
    And,
    Or,
    Xor,
    Nand,
    Nor,
    Xnor,
    Timer,
    /// A sub-circuit stored in the file at the given path.
    Module(String),
    Input,
    Output,
    Button,
    Switch,
    Label,
}

impl PartType {
    /// The text shown for this kind of part.
    pub open spec fn label_text(self) -> Seq<char> {
        match self {
            PartType::And => "AND"@,
            PartType::Or => "OR"@,
            PartType::Xor => "XOR"@,
            PartType::Nand => "NAND"@,
            PartType::Nor => "NOR"@,
            PartType::Xnor => "XNOR"@,
            PartType::Timer => "Timer"@,
            PartType::Module(_) => "Module"@,
            PartType::Input => "Input"@,
            PartType::Output => "Output"@,
            PartType::Button => "Button"@,
            PartType::Switch => "Swtich"@,
            PartType::Label => "Label"@,
        }
    }

    /// Whether this kind of part is one of the six logic gates.
    pub open spec fn is_gate(self) -> bool {
        self is And || self is Or || self is Xor || self is Nand || self is Nor || self is Xnor
    }

    /// The text shown for this kind of part.
    pub fn label(&self) -> (text: &'static str)
        ensures
            text@ == self.label_text(),
    {
        match self {
            PartType::And => "AND",
            PartType::Or => "OR",
            PartType::Xor => "XOR",
            PartType::Nand => "NAND",
            PartType::Nor => "NOR",
            PartType::Xnor => "XNOR",
            PartType::Timer => "Timer",
            PartType::Module(_) => "Module",
            PartType::Input => "Input",
            PartType::Output => "Output",
            PartType::Button => "Button",
            PartType::Switch => "Swtich",
            PartType::Label => "Label",
        }
    }

    /// The logic parts, in the order the parts menu lists them.
    pub fn main_parts() -> (parts: Vec<PartType>)
        ensures
            parts@ == seq![
                PartType::And,
                PartType::Or,
                PartType::Xor,
                PartType::Nand,
                PartType::Nor,
                PartType::Xnor,
                PartType::Timer,
            ],
    {
        vec![
            PartType::And,
            PartType::Or,
            PartType::Xor,
            PartType::Nand,
            PartType::Nor,
            PartType::Xnor,
            PartType::Timer,
        ]
    }

    /// The six logic gates.
    pub fn gates() -> (parts: Vec<PartType>)
        ensures
            parts@ == seq![
                PartType::And,
                PartType::Or,
                PartType::Xor,
                PartType::Nand,
                PartType::Nor,
                PartType::Xnor,
            ],
            forall|i: int| 0 <= i < parts@.len() ==> (#[trigger] parts@[i]).is_gate(),
    {
        vec![
            PartType::And,
            PartType::Or,
            PartType::Xor,
            PartType::Nand,
            PartType::Nor,
            PartType::Xnor,
        ]
    }

    /// The input and output parts, in the order the parts menu lists them.
    pub fn io_parts() -> (parts: Vec<PartType>)
        ensures
            parts@ == seq![
                PartType::Input,
                PartType::Output,
                PartType::Button,
                PartType::Switch,
                PartType::Label,
            ],
    {
        vec![
            PartType::Input,
            PartType::Output,
            PartType::Button,
            PartType::Switch,
            PartType::Label,
        ]
    }
}

/// The boolean function a gate computes over its inputs.
#[derive(Clone, Copy, Debug, PartialEq, Eq, Hash, Structural)]
pub enum GateType {
    And,
    Or,
    Xor,
    Nand,
    Nor,
    Xnor,
}

impl GateType {
    /// The text shown for this gate type.
    pub open spec fn label_text(self) -> Seq<char> {
        match self {
            GateType::And => "AND"@,
            GateType::Or => "OR"@,
            GateType::Xor => "XOR"@,
            GateType::Nand => "NAND"@,
            GateType::Nor => "NOR"@,
            GateType::Xnor => "XNOR"@,
        }
    }

    /// What gate type a part type stands for; every part that is no gate
    /// counts as `And`.
    pub open spec fn of_part_type(part: PartType) -> GateType {
        match part {
            PartType::Or => GateType::Or,
            PartType::Xor => GateType::Xor,
            PartType::Nand => GateType::Nand,
            PartType::Nor => GateType::Nor,
            PartType::Xnor => GateType::Xnor,
            _ => GateType::And,
        }
    }

    /// The small integer that encodes this gate type in a flat buffer.
    pub open spec fn code_of(self) -> u8 {
        match self {
            GateType::And => 0,
            GateType::Or => 1,
            GateType::Xor => 2,
            GateType::Nand => 3,
            GateType::Nor => 4,
            GateType::Xnor => 5,
        }
    }

    /// That gate type whose output is the negation of this one's on every
    /// input.
    pub open spec fn negation(self) -> GateType {
        match self {
            GateType::And => GateType::Nand,
            GateType::Or => GateType::Nor,
            GateType::Xor => GateType::Xnor,
            GateType::Nand => GateType::And,
            GateType::Nor => GateType::Or,
            GateType::Xnor => GateType::Xor,
        }
    }

    /// The text shown for this gate type.
    pub fn to_label(&self) -> (text: String)
        ensures
            text@ == self.label_text(),
    {
        let text: &'static str = match self {
            GateType::And => "AND",
            GateType::Or => "OR",
            GateType::Xor => "XOR",
            GateType::Nand => "NAND",
            GateType::Nor => "NOR",
            GateType::Xnor => "XNOR",
        };
        text.to_owned()
    }

    /// What gate type a part type stands for; every part that is no gate
    /// counts as `And`.
    pub fn from_part_type(part: PartType) -> (gate_type: Self)
        ensures
            gate_type == Self::of_part_type(part),
    {
        match part {
            PartType::Or => Self::Or,
            PartType::Xor => Self::Xor,
            PartType::Nand => Self::Nand,
            PartType::Nor => Self::Nor,
            PartType::Xnor => Self::Xnor,
            _ => Self::And,
        }
    }

    /// All gate types, ordered by their code.
    pub fn types() -> (all: Vec<GateType>)
        ensures
            all@.len() == 6,
            forall|i: int| 0 <= i < 6 ==> (#[trigger] all@[i]).code_of() == i,
    {
        vec![
            GateType::And,
            GateType::Or,
            GateType::Xor,
            GateType::Nand,
            GateType::Nor,
            GateType::Xnor,
        ]
    }

    /// The code of this gate type, in `0..=5`.
    pub fn code(&self) -> (code: u8)
        ensures
            code == self.code_of(),
            code <= 5,
    {
        match self {
            GateType::And => 0,
            GateType::Or => 1,
            GateType::Xor => 2,
            GateType::Nand => 3,
            GateType::Nor => 4,
            GateType::Xnor => 5,
        }
    }

    /// Which gate type has the given code, if one has.
    pub fn from_code(code: u8) -> (gate_type: Option<GateType>)
        ensures
            code <= 5 ==> gate_type is Some && gate_type->0.code_of() == code,
            code > 5 ==> gate_type is None,
    {
        if code == 0 {
            Some(GateType::And)
        } else if code == 1 {
            Some(GateType::Or)
        } else if code == 2 {
            Some(GateType::Xor)
        } else if code == 3 {
            Some(GateType::Nand)
        } else if code == 4 {
            Some(GateType::Nor)
        } else if code == 5 {
            Some(GateType::Xnor)
        } else {
            None
        }
    }

    /// Its negating gate type.
    pub fn negated(&self) -> (other: GateType)
        ensures
            other == self.negation(),
    {
        match self {
            GateType::And => GateType::Nand,
            GateType::Or => GateType::Nor,
            GateType::Xor => GateType::Xnor,
            GateType::Nand => GateType::And,
            GateType::Nor => GateType::Or,
            GateType::Xnor => GateType::Xor,
        }
    }
}

/// A logic gate on the canvas.
#[derive(Debug, Clone, Copy, PartialEq, Eq, Structural)]
pub struct Gate {
    pub gate_type: GateType,
    pub powered: bool,
}

impl Gate {
    /// A gate of the given type that is not powered, and its label.
    pub fn new(gate_type: GateType) -> (made: (Gate, String))
        ensures
            made.0 == (Gate { gate_type, powered: false }),
            made.1@ == gate_type.label_text(),
    {
        (Gate { gate_type, powered: false }, gate_type.to_label())
    }
}

/// A delay line: what goes in comes out `secs` seconds and `ticks` ticks
/// later.
#[derive(Debug, Clone, PartialEq, Eq)]
pub struct Timer {
    pub buffer: Vec<bool>,
    pub secs: u8,
    pub ticks: u8,
}

impl Timer {
    /// A timer without delay and with nothing in its buffer, and its label.
    pub fn new() -> (made: (Timer, String))
        ensures
            made.0.buffer@ == Seq::<bool>::empty(),
            made.0.secs == 0,
            made.0.ticks == 0,
            made.1@ == "Timer"@,
    {
        (Timer { buffer: Vec::new(), secs: 0, ticks: 0 }, "Timer".to_owned())
    }
}

/// A pin through which a module is wired from outside: an input of the
/// module if `input` is set, an output if not.
#[derive(Debug, Clone, Copy, PartialEq, Eq, Structural)]
pub struct IO {
    pub input: bool,
}

impl IO {
    /// A pin of the given direction, and its label.
    pub fn new(input: bool) -> (made: (IO, String))
        ensures
            made.0 == (IO { input }),
            made.1@ == if input {
                "Input"@
            } else {
                "Output"@
            },
    {
        let label: &'static str = if input {
            "Input"
        } else {
            "Output"
        };
        (IO { input }, label.to_owned())
    }
}

/// A hand-operated source: a switch that stays where it is put if `toggle`
/// is set, a button that springs back if not.
#[derive(Debug, Clone, Copy, PartialEq, Eq, Structural)]
pub struct Switch {
    pub toggle: bool,
    pub powered: bool,
}

impl Switch {
    /// A switch or button that is not powered, and its label.
    pub fn new(toggle: bool) -> (made: (Switch, String))
        ensures
            made.0 == (Switch { toggle, powered: false }),
            made.1@ == if toggle {
                "Switch"@
            } else {
                "Button"@
            },
    {
        let label: &'static str = if toggle {
            "Switch"
        } else {
            "Button"
        };
        (Switch { toggle, powered: false }, label.to_owned())
    }
}

/// One end of a wire: a port of the part with id `part`. `port_id` tells
/// the ports of a module apart and is `None` on every other part.
#[derive(Debug, Clone, Copy, PartialEq, Eq, Hash, Structural)]
pub struct Port {
    pub part: u64,
    pub input: bool,
    pub port_id: Option<u64>,
}

impl Port {
    /// The port of a part that has one port in each direction at most.
    pub open spec fn plain(part: u64, input: bool) -> Port {
        Port { part, input, port_id: None }
    }

    /// The port `port_id` of a module.
    pub open spec fn of_module(part: u64, input: bool, port_id: u64) -> Port {
        Port { part, input, port_id: Some(port_id) }
    }
}

impl Gate {
    /// Makes this gate one of type `gate_type`. A label that is still the
    /// name of the old type follows to the name of the new one; any other
    /// label stays. Tells whether the type changed.
    pub fn retype(&mut self, gate_type: GateType, label: &mut String) -> (changed: bool)
        ensures
            changed == (gate_type != old(self).gate_type),
            *final(self) == (Gate { gate_type, powered: old(self).powered }),
            final(label)@ == if changed && old(label)@ == old(self).gate_type.label_text() {
                gate_type.label_text()
            } else {
                old(label)@
            },
    {
        if gate_type != self.gate_type {
            if *label == self.gate_type.to_label() {
                *label = gate_type.to_label();
            }
            self.gate_type = gate_type;
            true
        } else {
            false
        }
    }

    /// The ports of a gate with the id `part`: its input, then its output.
    pub fn ports(part: u64) -> (ports: Vec<Port>)
        ensures
            ports@ == seq![Port::plain(part, true), Port::plain(part, false)],
    {
        vec![
            Port { part, input: true, port_id: None },
            Port { part, input: false, port_id: None },
        ]
    }
}

impl Timer {
    /// The delay in ticks, at forty ticks to the second.
    pub fn total_ticks(&self) -> (total: u32)
        ensures
            total == self.secs * 40 + self.ticks,
    {
        self.secs as u32 * 40 + self.ticks as u32
    }

    /// The ports of a timer with the id `part`: its input, then its output.
    pub fn ports(part: u64) -> (ports: Vec<Port>)
        ensures
            ports@ == seq![Port::plain(part, true), Port::plain(part, false)],
    {
        vec![
            Port { part, input: true, port_id: None },
            Port { part, input: false, port_id: None },
        ]
    }
}

impl Switch {
    /// The one port of a switch or button with the id `part`: its output.
    pub fn ports(part: u64) -> (ports: Vec<Port>)
        ensures
            ports@ == seq![Port::plain(part, false)],
    {
        vec![Port { part, input: false, port_id: None }]
    }
}

impl IO {
    /// The one port of a pin with the id `part`. A pin that is an input of
    /// its module is a source on the canvas and so has an output, and the
    /// other way round.
    pub fn ports(&self, part: u64) -> (ports: Vec<Port>)
        ensures
            ports@ == seq![Port::plain(part, !self.input)],
    {
        vec![Port { part, input: !self.input, port_id: None }]
    }
}

/// The ports of a module with the id `part` whose inner input pins have the
/// ids `inputs` and whose inner output pins have the ids `outputs`: one
/// input for each of the first, then one output for each of the second.
pub fn module_ports(part: u64, inputs: &Vec<u64>, outputs: &Vec<u64>) -> (ports: Vec<Port>)
    ensures
        ports@ == Seq::new(inputs@.len(), |i: int| Port::of_module(part, true, inputs@[i]))
            + Seq::new(outputs@.len(), |i: int| Port::of_module(part, false, outputs@[i])),
{
    let mut ports: Vec<Port> = Vec::new();
    let mut i: usize = 0;
    while i < inputs.len()
        invariant
            i <= inputs@.len(),
            ports@ == Seq::new(i as nat, |k: int| Port::of_module(part, true, inputs@[k])),
        decreases inputs@.len() - i,
    {
        ports.push(Port { part, input: true, port_id: Some(inputs[i]) });
        assert(ports@ =~= Seq::new(
            (i + 1) as nat,
            |k: int| Port::of_module(part, true, inputs@[k]),
        ));
        i = i + 1;
    }
    let ghost ins = ports@;
    let mut j: usize = 0;
    assert(ports@ =~= ins + Seq::new(0, |k: int| Port::of_module(part, false, outputs@[k])));
    while j < outputs.len()
        invariant
            j <= outputs@.len(),
            ins == Seq::new(inputs@.len(), |k: int| Port::of_module(part, true, inputs@[k])),
            ports@ == ins + Seq::new(j as nat, |k: int| Port::of_module(part, false, outputs@[k])),
        decreases outputs@.len() - j,
    {
        ports.push(Port { part, input: false, port_id: Some(outputs[j]) });
        assert(ports@ =~= ins + Seq::new(
            (j + 1) as nat,
            |k: int| Port::of_module(part, false, outputs@[k]),
        ));
        j = j + 1;
    }
    ports
}

/// Reading a code back gives that gate type it was taken from, and
/// negating a gate type twice gives it back.
pub proof fn lemma_gate_type_round_trips(kind: GateType)
    ensures
        kind.code_of() <= 5,
        kind.negation().negation() == kind,
        kind.negation() != kind,
        forall|other: GateType| other.code_of() == kind.code_of() ==> other == kind,
{
}

} // verus!
