use lc3_vm::opcodes::Opcodes;

const ALL_OPCODES: [Opcodes; 16] = [
    Opcodes::Branch,
    Opcodes::Add,
    Opcodes::Load,
    Opcodes::Store,
    Opcodes::JumpRegister,
    Opcodes::And,
    Opcodes::LoadRegister,
    Opcodes::StoreRegister,
    Opcodes::Rti,
    Opcodes::Not,
    Opcodes::LoadIndirect,
    Opcodes::StoreIndirect,
    Opcodes::Jump,
    Opcodes::Reserved,
    Opcodes::LoadEffectiveAddress,
    Opcodes::ExecuteTrap,
];

#[test]
fn opcodes_are_numbered_by_their_field_value() {
    for (index, opcode) in ALL_OPCODES.iter().enumerate() {
        assert_eq!(opcode.code(), index as u16);
        assert_eq!(Opcodes::from_u16(index as u16), Some(*opcode));
    }
}

#[test]
fn values_above_four_bits_select_no_opcode() {
    assert_eq!(Opcodes::from_u16(16), None);
    assert_eq!(Opcodes::from_u16(0x1000), None);
    assert_eq!(Opcodes::from_u16(0xFFFF), None);
}
