use rv64_asm::opnd::{
    a0, a1, a2, a3, a4, a5, a6, a7, c_arg_regregs, c_arg_regs, fp, gp, ra, s0, s1, s10, s11, s2,
    s3, s4, s5, s6, s7, s8, s9, sp, t0, t1, t2, t3, t4, t5, t6, tp, x_reg, zero, RV64Opnd,
    RV64Reg,
};

fn reg_no_of(opnd: RV64Opnd) -> u8 {
    opnd.unwrap_reg().reg_no
}

#[test]
fn register_construction_keeps_index() {
    for i in 0u8..32u8 {
        assert_eq!(RV64Reg::new(i).reg_no, i);
        assert_eq!(x_reg(i).reg_no, i);
    }
}

#[test]
fn register_index_32_is_rejected_not_masked() {
    // Rejection, not truncation: index 32 yields no register at all,
    // in particular not the zero register.
    assert!(RV64Reg::try_new(32).is_none());
    assert!(RV64Reg::try_new(255).is_none());
    let low = RV64Reg::try_new(0).unwrap();
    assert_eq!(low.reg_no, 0);
    let high = RV64Reg::try_new(31).unwrap();
    assert_eq!(high.reg_no, 31);
}

#[test]
fn operand_constructors_build_their_kind() {
    assert!(matches!(RV64Opnd::new_imm(-7), RV64Opnd::Imm(-7)));
    assert!(matches!(RV64Opnd::new_uimm(7), RV64Opnd::UImm(7)));
    let reg = RV64Reg::new(13);
    assert!(matches!(RV64Opnd::new_reg(reg), RV64Opnd::Reg(r) if r.reg_no == 13));
    let mem = RV64Opnd::new_mem(2, -16);
    assert!(matches!(mem, RV64Opnd::Mem(m) if m.base_reg_no == 2 && m.offset == -16));
}

#[test]
fn is_reg_holds_only_for_register_operands() {
    assert!(RV64Opnd::new_reg(RV64Reg::new(5)).is_reg());
    assert!(!RV64Opnd::new_imm(5).is_reg());
    assert!(!RV64Opnd::new_uimm(5).is_reg());
    assert!(!RV64Opnd::new_mem(5, 0).is_reg());
    assert!(!RV64Opnd::Dummy.is_reg());
}

#[test]
fn unwrap_reg_returns_the_wrapped_register() {
    let reg = RV64Reg::new(29);
    assert_eq!(RV64Opnd::new_reg(reg).unwrap_reg(), reg);
}

#[test]
fn abi_aliases_resolve_to_their_indices() {
    assert_eq!(reg_no_of(zero()), 0);
    assert_eq!(reg_no_of(ra()), 1);
    assert_eq!(reg_no_of(sp()), 2);
    assert_eq!(reg_no_of(gp()), 3);
    assert_eq!(reg_no_of(tp()), 4);
    // The frame pointer is an alias of saved register s0, x8.
    assert_eq!(reg_no_of(fp()), 8);
    assert_eq!(reg_no_of(s0()), 8);
    assert_eq!(fp(), s0());
    assert_eq!(reg_no_of(a0()), 10);
    assert_eq!(reg_no_of(a7()), 17);
}

#[test]
fn temporaries_and_saved_registers_resolve() {
    let temps = [t0(), t1(), t2(), t3(), t4(), t5(), t6()];
    let temp_nos: Vec<u8> = temps.iter().map(|o| reg_no_of(*o)).collect();
    assert_eq!(temp_nos, vec![5, 6, 7, 28, 29, 30, 31]);
    let saved = [
        s0(),
        s1(),
        s2(),
        s3(),
        s4(),
        s5(),
        s6(),
        s7(),
        s8(),
        s9(),
        s10(),
        s11(),
    ];
    let saved_nos: Vec<u8> = saved.iter().map(|o| reg_no_of(*o)).collect();
    assert_eq!(saved_nos, vec![8, 9, 18, 19, 20, 21, 22, 23, 24, 25, 26, 27]);
}

#[test]
fn argument_registers_in_calling_convention_order() {
    let args = [a0(), a1(), a2(), a3(), a4(), a5(), a6(), a7()];
    for (i, opnd) in args.iter().enumerate() {
        assert_eq!(reg_no_of(*opnd), 10 + i as u8);
    }
    let opnds = c_arg_regs();
    assert_eq!(opnds.len(), 8);
    for (i, opnd) in opnds.iter().enumerate() {
        assert_eq!(reg_no_of(*opnd), 10 + i as u8);
    }
    let regs = c_arg_regregs();
    assert_eq!(regs.len(), 8);
    for (i, reg) in regs.iter().enumerate() {
        assert_eq!(reg.reg_no, 10 + i as u8);
    }
}
