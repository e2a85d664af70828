use mos6502::cpu::Cpu;
use mos6502::ram::Ram;

#[test]
fn zpx_wraps_at_eight_bits() {
    let mut ram = Ram::create();
    ram.write(0x1, 0xFF);
    let mut cpu = Cpu::create(ram);
    cpu.x = 0x02;

    let addr = cpu.zpx();

    assert_eq!(addr, 0x01);
    assert_eq!(cpu.pc, 0x1);
}

#[test]
fn zpy_wraps_at_eight_bits() {
    let mut ram = Ram::create();
    ram.write(0x1, 0xFF);
    let mut cpu = Cpu::create(ram);
    cpu.y = 0x02;

    let addr = cpu.zpy();

    assert_eq!(addr, 0x01);
    assert_eq!(cpu.pc, 0x1);
}

#[test]
fn lda_zpx_wraps_into_zero_page() {
    let mut ram = Ram::create();
    ram.write(0x200, 0xB5);
    ram.write(0x201, 0xFF);
    ram.write(0x01, 0x37);
    let mut cpu = Cpu::create(ram);
    cpu.pc = 0x200;
    cpu.x = 0x02;

    cpu.read_instruction().unwrap();

    assert_eq!(cpu.a, 0x37);
    assert_eq!(cpu.pc, 0x202);
}

#[test]
fn absolute_indexed_wraps_at_sixteen_bits() {
    let mut ram = Ram::create();
    ram.write(0x200, 0xBD);
    ram.write(0x201, 0xFF);
    ram.write(0x202, 0xFF);
    ram.write(0x000F, 0x55);
    let mut cpu = Cpu::create(ram);
    cpu.pc = 0x200;
    cpu.x = 0x10;

    cpu.read_instruction().unwrap();

    assert_eq!(cpu.a, 0x55);
    assert_eq!(cpu.pc, 0x203);
}

#[test]
fn unrecognized_opcode_is_fatal() {
    let mut ram = Ram::create();
    ram.write(0x0, 0xFF);
    let mut cpu = Cpu::create(ram);
    cpu.a = 0x11;

    let r = cpu.read_instruction();

    assert_eq!(r, Err(0xFF));
    assert_eq!(cpu.pc, 0x0);
    assert_eq!(cpu.a, 0x11);
    assert_eq!(cpu.sp, 0xFF);
}

#[test]
fn unrecognized_opcode_names_the_byte() {
    let mut ram = Ram::create();
    ram.write(0x0, 0x00);
    let mut cpu = Cpu::create(ram);

    let r = cpu.read_instruction();

    assert_eq!(r, Err(0x00));
    assert!(Cpu::get_instruction(0x00).is_none());
}

#[test]
fn push_pull_round_trip() {
    let mut ram = Ram::create();
    ram.write(0x0, 0x48);
    ram.write(0x1, 0x68);
    let mut cpu = Cpu::create(ram);
    cpu.a = 0x69;

    cpu.read_instruction().unwrap();
    assert_eq!(cpu.ram.read(0x01FF), 0x69);
    assert_eq!(cpu.sp, 0xFE);

    cpu.a = 0x00;
    cpu.read_instruction().unwrap();

    assert_eq!(cpu.a, 0x69);
    assert_eq!(cpu.sp, 0xFF);
    assert_eq!(cpu.pc, 0x2);
}

#[test]
fn stack_pointer_wraps_on_push() {
    let mut ram = Ram::create();
    ram.write(0x0, 0x48);
    let mut cpu = Cpu::create(ram);
    cpu.sp = 0x00;
    cpu.a = 0x42;

    cpu.read_instruction().unwrap();

    assert_eq!(cpu.ram.read(0x0100), 0x42);
    assert_eq!(cpu.sp, 0xFF);
}

#[test]
fn stack_pointer_wraps_on_pull() {
    let mut ram = Ram::create();
    ram.write(0x0, 0x68);
    ram.write(0x0100, 0x42);
    let mut cpu = Cpu::create(ram);
    cpu.sp = 0xFF;

    cpu.read_instruction().unwrap();

    assert_eq!(cpu.a, 0x42);
    assert_eq!(cpu.sp, 0x00);
}

#[test]
fn program_counter_wraps_at_top_of_memory() {
    let mut ram = Ram::create();
    ram.write(0xFFFF, 0x48);
    let mut cpu = Cpu::create(ram);
    cpu.pc = 0xFFFF;
    cpu.a = 0x05;

    cpu.read_instruction().unwrap();

    assert_eq!(cpu.pc, 0x0);
    assert_eq!(cpu.sp, 0xFE);
    assert_eq!(cpu.ram.read(0x01FF), 0x05);
}

#[test]
fn load_does_not_clear_sticky_flags() {
    let mut ram = Ram::create();
    ram.write(0x0, 0xA9);
    ram.write(0x1, 0x01);
    let mut cpu = Cpu::create(ram);
    cpu.status = 0x42;

    cpu.read_instruction().unwrap();

    assert_eq!(cpu.a, 0x01);
    assert!(cpu.get_zero_flag());
    assert!(cpu.get_negative_flag());
}

#[test]
fn status_flag_getters_read_their_bits() {
    let ram = Ram::create();
    let mut cpu = Cpu::create(ram);

    cpu.status = 0x55;
    assert!(cpu.get_carry_flag());
    assert!(!cpu.get_zero_flag());
    assert!(cpu.get_interrupt_flag());
    assert!(!cpu.get_decimal_mode());
    assert!(cpu.get_break_command());
    assert!(!cpu.get_overflow_flag());
    assert!(cpu.get_negative_flag());

    cpu.status = 0xAA;
    assert!(!cpu.get_carry_flag());
    assert!(cpu.get_zero_flag());
    assert!(!cpu.get_interrupt_flag());
    assert!(cpu.get_decimal_mode());
    assert!(!cpu.get_break_command());
    assert!(cpu.get_overflow_flag());
    assert!(!cpu.get_negative_flag());
}

#[test]
fn get_sp_addr_names_stack_page() {
    let ram = Ram::create();
    let mut cpu = Cpu::create(ram);
    cpu.sp = 0xAB;

    assert_eq!(cpu.get_sp_addr(), 0x01AB);
}

#[test]
fn fresh_cpu_state() {
    let ram = Ram::create();
    let cpu = Cpu::create(ram);

    assert_eq!(cpu.sp, 0xFF);
    assert_eq!(cpu.pc, 0x0);
    assert_eq!(cpu.a, 0x0);
    assert_eq!(cpu.x, 0x0);
    assert_eq!(cpu.y, 0x0);
    assert_eq!(cpu.status, 0x0);
}

#[test]
fn fresh_ram_is_zeroed() {
    let mut ram = Ram::create();

    assert_eq!(ram.read(0x0000), 0x00);
    assert_eq!(ram.read(0x1234), 0x00);
    assert_eq!(ram.read(0xFFFF), 0x00);

    ram.write(0x1234, 0x42);
    assert_eq!(ram.read(0x1234), 0x42);
    assert_eq!(ram.read(0x1233), 0x00);
}
