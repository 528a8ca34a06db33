use virtuo::cpu::CPU;
use virtuo::cpu::VmError;

#[test]
fn test_cpu() {
    let mut cpu = CPU::new();
    let mut memory = vec![0; 256];
    memory[0] = 0x01;
    memory[1] = 0x01;
    memory[2] = 0x01;
    memory[3] = 0x00;
    cpu.run(&mut memory).unwrap();
    assert_eq!(cpu.acc, 3);
}

#[test]
fn test_cpu_push_pop() {
    let mut cpu = CPU::new();
    let mut memory = vec![0; 256];
    cpu.push(0x01, &mut memory).unwrap();
    assert_eq!(cpu.pop(&memory), Ok(0x01));
}

#[test]
fn test_cpu_stack_overflow() {
    let mut cpu = CPU::new();
    let mut memory = vec![0; 256];
    for _ in 0..255 {
        cpu.push(0x01, &mut memory).unwrap();
    }
    let result = cpu.push(0x01, &mut memory);
    assert!(result.is_err(), "Expected a stack overflow");
    assert_eq!(result, Err(VmError::StackOverflow));
}

#[test]
fn test_cpu_peek() {
    let mut cpu = CPU::new();
    let mut memory = vec![0; 256];
    cpu.push(0x01, &mut memory).unwrap();
    assert_eq!(cpu.peek(&memory), Ok(0x01));
}

#[test]
fn test_cpu_poke() {
    let mut cpu = CPU::new();
    let mut memory = vec![0; 256];
    cpu.push(0x01, &mut memory).unwrap();
    cpu.poke(0xFE, &mut memory).unwrap();
    assert_eq!(cpu.peek(&memory), Ok(0xFE));
}

#[test]
fn test_reset() {
    let mut cpu = CPU::new();
    let mut memory = vec![0; 256];
    cpu.push(0x01, &mut memory).unwrap();
    cpu.reset();
    assert_eq!(cpu.sp, 0xFF);
}

#[test]
fn test_new_registers() {
    let cpu = CPU::new();
    assert_eq!(cpu.pc, 0);
    assert_eq!(cpu.sp, 0xFF);
    assert_eq!(cpu.acc, 0);
}

#[test]
fn test_pop_underflow_on_fresh() {
    let mut cpu = CPU::new();
    let memory = vec![0; 256];
    assert_eq!(cpu.pop(&memory), Err(VmError::StackUnderflow));
    assert_eq!(cpu.sp, 0xFF);
}

#[test]
fn test_peek_poke_empty_stack() {
    let mut cpu = CPU::new();
    let mut memory = vec![0; 256];
    cpu.sp = 0x100;
    assert_eq!(cpu.peek(&memory), Err(VmError::InvalidStackAccess));
    assert_eq!(cpu.poke(0x42, &mut memory), Err(VmError::InvalidStackAccess));
    assert_eq!(memory[0xFF], 0);
}

#[test]
fn test_push_lands_descending() {
    let mut cpu = CPU::new();
    let mut memory = vec![0; 256];
    cpu.push(10, &mut memory).unwrap();
    cpu.push(20, &mut memory).unwrap();
    cpu.push(30, &mut memory).unwrap();
    assert_eq!(cpu.sp, 0xFC);
    assert_eq!(memory[0xFE], 10);
    assert_eq!(memory[0xFD], 20);
    assert_eq!(memory[0xFC], 30);
}

#[test]
fn test_reset_restores_registers() {
    let mut cpu = CPU::new();
    let mut memory = vec![0; 256];
    memory[0] = 0x01;
    memory[1] = 0x01;
    cpu.run(&mut memory).unwrap();
    let snapshot = memory.clone();
    cpu.reset();
    assert_eq!(cpu.pc, 0);
    assert_eq!(cpu.sp, 0xFF);
    assert_eq!(cpu.acc, 0);
    assert_eq!(memory, snapshot);
}

#[test]
fn test_run_pop_acc() {
    let mut cpu = CPU::new();
    let mut memory = vec![0; 256];
    memory[0] = 0x01;
    memory[1] = 0x01;
    memory[2] = 0x01;
    memory[3] = 0x02;
    memory[4] = 0x00;
    cpu.run(&mut memory).unwrap();
    assert_eq!(cpu.acc, 3);
    assert_eq!(cpu.sp, 0xFD);
}

#[test]
fn test_run_dec() {
    let mut cpu = CPU::new();
    let mut memory = vec![0; 256];
    memory[0] = 0x01;
    memory[1] = 0x01;
    memory[2] = 0x01;
    memory[3] = 0x03;
    memory[4] = 0x00;
    cpu.run(&mut memory).unwrap();
    assert_eq!(cpu.acc, 2);
    assert_eq!(cpu.sp, 0xFC);
}

#[test]
fn test_run_out_of_bounds() {
    let mut cpu = CPU::new();
    let mut memory = vec![0x04; 256];
    assert_eq!(cpu.run(&mut memory), Err(VmError::OutOfBoundsFetch));
    assert_eq!(cpu.pc, 256);
    assert_eq!(cpu.sp, 0xFF);
}

#[test]
fn test_run_reports_stack_overflow() {
    let mut cpu = CPU::new();
    cpu.sp = 1;
    let mut memory = vec![0; 256];
    memory[0] = 0x01;
    memory[1] = 0x01;
    assert_eq!(cpu.run(&mut memory), Err(VmError::StackOverflow));
    assert_eq!(cpu.sp, 0);
    assert_eq!(cpu.acc, 2);
}

#[test]
fn test_run_reports_stack_underflow() {
    let mut cpu = CPU::new();
    let mut memory = vec![0; 256];
    memory[0] = 0x02;
    assert_eq!(cpu.run(&mut memory), Err(VmError::StackUnderflow));
}

#[test]
fn test_unknown_opcode_skipped() {
    let mut cpu = CPU::new();
    let mut memory = vec![0; 256];
    memory[0] = 0x09;
    memory[1] = 0x01;
    memory[2] = 0x00;
    cpu.run(&mut memory).unwrap();
    assert_eq!(cpu.acc, 1);
    assert_eq!(cpu.sp, 0xFE);
}

#[test]
fn test_fetch_advances() {
    let mut cpu = CPU::new();
    let mut memory = vec![0; 256];
    memory[0] = 0x42;
    assert_eq!(cpu.fetch_instruction(&memory), Ok(0x42));
    assert_eq!(cpu.pc, 1);
}

#[test]
fn test_fetch_out_of_bounds() {
    let mut cpu = CPU::new();
    let memory = vec![0; 256];
    cpu.pc = 300;
    assert_eq!(cpu.fetch_instruction(&memory), Err(VmError::OutOfBoundsFetch));
    assert_eq!(cpu.pc, 300);
}

#[test]
fn test_acc_wraps_on_inc() {
    let mut cpu = CPU::new();
    let mut memory = vec![0; 256];
    cpu.acc = 0xFF;
    cpu.execute_instruction(0x01, &mut memory).unwrap();
    assert_eq!(cpu.acc, 0);
    assert_eq!(cpu.peek(&memory), Ok(0));
}

#[test]
fn test_acc_wraps_on_dec() {
    let mut cpu = CPU::new();
    let mut memory = vec![0; 256];
    cpu.execute_instruction(0x03, &mut memory).unwrap();
    assert_eq!(cpu.acc, 0xFF);
    assert_eq!(cpu.sp, 0xFF);
}
