use tc37x_hal::interrupt::SoftwareInterruptNode;
use tc37x_hal::reg::RegOp;
use tc37x_hal::timer::init_gpt12_timer;

fn modify(addr: u32, value: u32, mask: u32) -> RegOp {
    RegOp::Modify { addr, value, mask }
}

#[test]
fn software_interrupt_programs_its_own_node() {
    let node = SoftwareInterruptNode::new(1, 2, 7, 1);
    assert!(node.is_on_chip());
    assert_eq!(node.get_prio(), 7);
    let mut ops = Vec::new();
    node.init(&mut ops);
    node.set_request(&mut ops);
    node.clear_request(&mut ops);
    node.enable(&mut ops);
    node.disable(&mut ops);
    assert_eq!(
        ops,
        vec![
            modify(0xF003_89B8, 0x0807, 0x38FF),
            modify(0xF003_89B8, 0x0400_0000, 0x0400_0000),
            modify(0xF003_89B8, 0x0200_0000, 0x0200_0000),
            modify(0xF003_89B8, 0x400, 0x400),
            modify(0xF003_89B8, 0, 0x400),
        ]
    );
    let first = SoftwareInterruptNode::new(0, 0, 255, 0);
    let mut ops = Vec::new();
    first.init(&mut ops);
    assert_eq!(ops, vec![modify(0xF003_8990, 0xFF, 0x38FF)]);
}

#[test]
fn software_interrupt_out_of_range_is_told() {
    assert!(!SoftwareInterruptNode::new(3, 0, 1, 0).is_on_chip());
    assert!(!SoftwareInterruptNode::new(0, 8, 1, 0).is_on_chip());
    assert!(SoftwareInterruptNode::new(2, 7, 1, 0).is_on_chip());
}

#[test]
fn timer_is_set_up_in_order() {
    let mut ops = Vec::new();
    init_gpt12_timer(3, &mut ops);
    assert_eq!(
        ops,
        vec![
            RegOp::ClearEndinit,
            modify(0xF000_1800, 0, 1),
            RegOp::SetEndinit,
            modify(0xF000_1814, 0x1800, 0x1800),
            modify(0xF000_1814, 0x86, 0xBF),
            modify(0xF000_1838, 97, 0xFFFF),
            modify(0xF000_1810, 0x27, 0x3F),
            modify(0xF000_1834, 97, 0xFFFF),
            modify(0xF000_1814, 0x40, 0x40),
            modify(0xF003_8308, 0x0200_0403, 0x0200_3CFF),
        ]
    );
}
