use logic_sim::colors::{
    default_gate_color, powered_color, unpowered_color, Color, ColorPallet,
};
use logic_sim::config::Config;
use logic_sim::connections::{connection_count, Connection};
use logic_sim::parts::{Gate, GateType, PartType, Port, Switch, Timer, IO};
use logic_sim::state::InteractionState;
use logic_sim::tools::{toggle_tool, tool_label, Tool};

fn opaque(r: u8, g: u8, b: u8) -> Color {
    Color { r, g, b, a: 255 }
}

#[test]
fn part_types_have_their_labels() {
    assert_eq!(PartType::And.label(), "AND");
    assert_eq!(PartType::Or.label(), "OR");
    assert_eq!(PartType::Xor.label(), "XOR");
    assert_eq!(PartType::Nand.label(), "NAND");
    assert_eq!(PartType::Nor.label(), "NOR");
    assert_eq!(PartType::Xnor.label(), "XNOR");
    assert_eq!(PartType::Timer.label(), "Timer");
    assert_eq!(PartType::Module("adder.sml".to_string()).label(), "Module");
    assert_eq!(PartType::Input.label(), "Input");
    assert_eq!(PartType::Output.label(), "Output");
    assert_eq!(PartType::Button.label(), "Button");
    assert_eq!(PartType::Switch.label(), "Swtich");
    assert_eq!(PartType::Label.label(), "Label");
}

#[test]
fn part_menus_list_their_parts_in_order() {
    assert_eq!(
        PartType::main_parts(),
        vec![
            PartType::And,
            PartType::Or,
            PartType::Xor,
            PartType::Nand,
            PartType::Nor,
            PartType::Xnor,
            PartType::Timer
        ]
    );
    assert_eq!(PartType::gates().len(), 6);
    assert_eq!(
        PartType::io_parts(),
        vec![
            PartType::Input,
            PartType::Output,
            PartType::Button,
            PartType::Switch,
            PartType::Label
        ]
    );
}

#[test]
fn gate_types_have_their_labels() {
    assert_eq!(GateType::And.to_label(), "AND");
    assert_eq!(GateType::Or.to_label(), "OR");
    assert_eq!(GateType::Xor.to_label(), "XOR");
    assert_eq!(GateType::Nand.to_label(), "NAND");
    assert_eq!(GateType::Nor.to_label(), "NOR");
    assert_eq!(GateType::Xnor.to_label(), "XNOR");
}

#[test]
fn gate_type_of_a_part_type() {
    assert_eq!(GateType::from_part_type(PartType::And), GateType::And);
    assert_eq!(GateType::from_part_type(PartType::Or), GateType::Or);
    assert_eq!(GateType::from_part_type(PartType::Xor), GateType::Xor);
    assert_eq!(GateType::from_part_type(PartType::Nand), GateType::Nand);
    assert_eq!(GateType::from_part_type(PartType::Nor), GateType::Nor);
    assert_eq!(GateType::from_part_type(PartType::Xnor), GateType::Xnor);
    assert_eq!(GateType::from_part_type(PartType::Timer), GateType::And);
    assert_eq!(GateType::from_part_type(PartType::Label), GateType::And);
    assert_eq!(GateType::from_part_type(PartType::Module("m".to_string())), GateType::And);
}

#[test]
fn gate_type_codes_round_trip() {
    let all = GateType::types();
    assert_eq!(all.len(), 6);
    for (code, kind) in all.iter().enumerate() {
        assert_eq!(kind.code() as usize, code);
        assert_eq!(GateType::from_code(code as u8), Some(*kind));
    }
    assert_eq!(GateType::from_code(6), None);
    assert_eq!(GateType::from_code(255), None);
    assert_eq!(GateType::Nand.code(), 3);
}

#[test]
fn negating_a_gate_type() {
    assert_eq!(GateType::And.negated(), GateType::Nand);
    assert_eq!(GateType::Or.negated(), GateType::Nor);
    assert_eq!(GateType::Xor.negated(), GateType::Xnor);
    for kind in GateType::types() {
        assert_eq!(kind.negated().negated(), kind);
    }
}

#[test]
fn new_parts_start_unpowered_under_their_label() {
    assert_eq!(
        Gate::new(GateType::Nor),
        (Gate { gate_type: GateType::Nor, powered: false }, "NOR".to_string())
    );
    assert_eq!(
        Timer::new(),
        (Timer { buffer: Vec::new(), secs: 0, ticks: 0 }, "Timer".to_string())
    );
    assert_eq!(IO::new(true), (IO { input: true }, "Input".to_string()));
    assert_eq!(IO::new(false), (IO { input: false }, "Output".to_string()));
    assert_eq!(
        Switch::new(true),
        (Switch { toggle: true, powered: false }, "Switch".to_string())
    );
    assert_eq!(
        Switch::new(false),
        (Switch { toggle: false, powered: false }, "Button".to_string())
    );
}

#[test]
fn tools_have_their_labels() {
    assert_eq!(tool_label(None), "Select");
    assert_eq!(tool_label(Some(Tool::Paint)), "Paint Tool");
    assert_eq!(tool_label(Some(Tool::Connector)), "Connnector");
    assert_eq!(tool_label(Some(Tool::PlacePart(PartType::And))), "???");
    assert_eq!(tool_label(Some(Tool::PlaceModule("m.sml".to_string()))), "???");
    assert_eq!(Tool::tools(), vec![None, Some(Tool::Paint), Some(Tool::Connector)]);
}

#[test]
fn clicking_the_tool_in_use_puts_it_away() {
    assert_eq!(toggle_tool(Some(Tool::Paint), Some(Tool::Paint), true), None);
    assert_eq!(toggle_tool(None, Some(Tool::Paint), false), Some(Tool::Paint));
    assert_eq!(
        toggle_tool(Some(Tool::Paint), Some(Tool::Connector), false),
        Some(Tool::Connector)
    );
}

#[test]
fn the_default_scheme_is_made_of_opaque_grays() {
    let pallet = ColorPallet::default_pallet();
    assert_eq!(pallet.label, "Default");
    assert_eq!(pallet.grid, opaque(40, 40, 40));
    assert_eq!(pallet.grid_lines, opaque(75, 75, 75));
    assert_eq!(pallet.text, opaque(210, 210, 210));
    assert_eq!(pallet.base, opaque(35, 35, 35));
    assert_eq!(pallet.button, opaque(50, 50, 50));
    assert_eq!(pallet.button_hover, opaque(40, 40, 40));
    assert_eq!(pallet.button_pushed, opaque(20, 20, 20));
    assert_eq!(pallet.selection, opaque(77, 151, 255));
    assert_eq!(pallet.selection_text, opaque(15, 15, 15));
    assert_eq!(ColorPallet::default(), pallet);
}

#[test]
fn schemes_are_found_by_their_name() {
    let mocha = ColorPallet::from_label("Catppuccin Mocha");
    assert_eq!(mocha.label, "Catppuccin Mocha");
    assert_eq!(mocha.grid, opaque(30, 30, 46));
    assert_eq!(mocha.selection, opaque(245, 194, 231));
    assert_eq!(mocha, ColorPallet::catppuccin_mocha());

    let nord = ColorPallet::from_label("Nord");
    assert_eq!(nord.label, "Nord");
    assert_eq!(nord.text, opaque(236, 239, 244));
    assert_eq!(nord.button_pushed, opaque(46, 52, 64));
    assert_eq!(nord, ColorPallet::nord());

    assert_eq!(ColorPallet::from_label("Default"), ColorPallet::default_pallet());
    assert_eq!(ColorPallet::from_label("Defaut"), ColorPallet::default_pallet());
    assert_eq!(ColorPallet::from_label("nord"), ColorPallet::default_pallet());
    assert_eq!(ColorPallet::from_label(""), ColorPallet::default_pallet());
    assert_eq!(
        ColorPallet::color_schemes(),
        vec!["Defaut", "Catppuccin Mocha", "Nord", "Custom"]
    );
}

#[test]
fn choosing_custom_keeps_the_colours_in_use() {
    let nord = ColorPallet::nord();
    let custom = nord.choose_scheme("Custom");
    assert_eq!(custom.label, "Custom");
    assert_eq!(custom.grid, nord.grid);
    assert_eq!(custom.selection_text, nord.selection_text);
    assert_eq!(custom, ColorPallet { label: "Custom".to_string(), ..nord.clone() });
    assert_eq!(nord.choose_scheme("Catppuccin Mocha"), ColorPallet::catppuccin_mocha());
    assert_eq!(nord.choose_scheme("Defaut"), ColorPallet::default_pallet());
}

#[test]
fn fixed_colours() {
    assert_eq!(default_gate_color(), opaque(0xDF, 0x7F, 0x01));
    assert_eq!(unpowered_color(), opaque(35, 35, 35));
    assert_eq!(powered_color(), opaque(0, 149, 255));
}

#[test]
fn settings_of_a_first_run() {
    let config = Config::default();
    assert_eq!(config.show_arrows, false);
    assert_eq!(config.show_grid, true);
    assert_eq!(config.show_connection_count, true);
    assert_eq!(config.snap_to_grid, true);
    assert_eq!(config.show_fps, false);
    assert_eq!(config.last_project, None);
    assert_eq!(config.color_pallet, ColorPallet::default_pallet());
}

#[test]
fn the_editor_starts_idle() {
    assert_eq!(InteractionState::default(), InteractionState::Idle);
}

fn port(part: u64, input: bool) -> Port {
    Port { part, input, port_id: None }
}

#[test]
fn wire_ends_are_counted_per_port() {
    let wires = vec![
        Connection { start: port(1, false), end: port(2, true), powered: false },
        Connection { start: port(1, false), end: port(3, true), powered: true },
        Connection { start: port(2, false), end: port(3, true), powered: false },
        Connection { start: port(4, false), end: port(4, false), powered: false },
    ];
    assert_eq!(connection_count(&wires, &port(1, false)), 2);
    assert_eq!(connection_count(&wires, &port(2, true)), 1);
    assert_eq!(connection_count(&wires, &port(3, true)), 2);
    assert_eq!(connection_count(&wires, &port(4, false)), 2);
    assert_eq!(connection_count(&wires, &port(1, true)), 0);
    assert_eq!(
        connection_count(&wires, &Port { part: 2, input: true, port_id: Some(0) }),
        0
    );
    assert_eq!(connection_count(&Vec::new(), &port(1, false)), 0);
}
