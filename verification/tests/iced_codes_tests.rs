use iced_x86::{Code, MemorySize, Mnemonic, OpCodeOperandKind, OpCodeTableKind, OpKind, Register};
use test_generator::iced_codes::{
    MNEMONIC_MOVSB, MNEMONIC_MOVSW, MNEMONIC_MOVSD, MNEMONIC_CMPSB, MNEMONIC_CMPSW,
    MNEMONIC_CMPSD, MNEMONIC_SCASB, MNEMONIC_SCASW, MNEMONIC_SCASD, MNEMONIC_LODSB,
    MNEMONIC_LODSW, MNEMONIC_LODSD, MNEMONIC_STOSB, MNEMONIC_STOSW, MNEMONIC_STOSD,
    MNEMONIC_INSB, MNEMONIC_INSW, MNEMONIC_INSD, MNEMONIC_OUTSB, MNEMONIC_OUTSW, MNEMONIC_OUTSD,
    MNEMONIC_ENTER, MNEMONIC_PUSHA, MNEMONIC_PUSHAD, MNEMONIC_POPA, MNEMONIC_POPAD, MNEMONIC_IN,
    MNEMONIC_OUT, MNEMONIC_MOV, MNEMONIC_SETO, MNEMONIC_SETNO, MNEMONIC_SETB, MNEMONIC_SETAE,
    MNEMONIC_SETE, MNEMONIC_SETNE, MNEMONIC_SETBE, MNEMONIC_SETA, MNEMONIC_SETS, MNEMONIC_SETNS,
    MNEMONIC_SETP, MNEMONIC_SETNP, MNEMONIC_SETL, MNEMONIC_SETGE, MNEMONIC_SETLE, MNEMONIC_SETG,
    MNEMONIC_JMP, MNEMONIC_TEST, MNEMONIC_CMP, MNEMONIC_XLATB, MNEMONIC_MUL, MNEMONIC_IMUL,
    MNEMONIC_DIV, MNEMONIC_IDIV, MNEMONIC_BT, MNEMONIC_BTS, MNEMONIC_BTR, MNEMONIC_BTC,
    MNEMONIC_RCL, MNEMONIC_RCR, MNEMONIC_SHL, MNEMONIC_SHR, MNEMONIC_SAL, MNEMONIC_SAR,
    MNEMONIC_ROL, MNEMONIC_ROR, MNEMONIC_CALL, MNEMONIC_LEA, MNEMONIC_XCHG, MNEMONIC_POP, MNEMONIC_PUSH, OPCODE_TABLE_T0F, OPCODE_OPERAND_R8_OPCODE, OPCODE_OPERAND_R16_OPCODE, OPCODE_OPERAND_R32_OPCODE, OPKIND_REGISTER,
    OPKIND_NEAR_BRANCH16, OPKIND_NEAR_BRANCH32, OPKIND_IMMEDIATE8, OPKIND_FAR_BRANCH32,
    OPKIND_IMMEDIATE16, OPKIND_IMMEDIATE32, OPKIND_IMMEDIATE64, OPKIND_IMMEDIATE8TO16,
    OPKIND_IMMEDIATE8TO32, OPKIND_IMMEDIATE8TO64, OPKIND_IMMEDIATE32TO64, OPKIND_MEMORY,
    CODE_INVALID, CODE_RETNW_IMM16, CODE_RETND_IMM16, CODE_RETNW, CODE_RETND, CODE_RETFW_IMM16,
    CODE_RETFD_IMM16, CODE_RETFW, CODE_RETFD, CODE_IRETW, CODE_IRETD, MEMORY_SIZE_SEG_PTR16,
    MEMORY_SIZE_SEG_PTR32, MEMORY_SIZE_WORD_OFFSET, MEMORY_SIZE_DWORD_OFFSET, REGISTER_AX,
    REGISTER_CX, REGISTER_DX, REGISTER_BX, REGISTER_SP, REGISTER_BP, REGISTER_SI, REGISTER_DI,
    REGISTER_EAX, REGISTER_ECX, REGISTER_EDX, REGISTER_EBX, REGISTER_ESP, REGISTER_EBP,
    REGISTER_ESI, REGISTER_EDI, REGISTER_ES, REGISTER_CS, REGISTER_SS, REGISTER_DS, REGISTER_FS,
    REGISTER_GS, REGISTER_NONE,
};

#[test]
fn iced_numbers_match_the_iced_enums() {
    assert_eq!(Mnemonic::Movsb as u16, MNEMONIC_MOVSB);
    assert_eq!(Mnemonic::Movsw as u16, MNEMONIC_MOVSW);
    assert_eq!(Mnemonic::Movsd as u16, MNEMONIC_MOVSD);
    assert_eq!(Mnemonic::Cmpsb as u16, MNEMONIC_CMPSB);
    assert_eq!(Mnemonic::Cmpsw as u16, MNEMONIC_CMPSW);
    assert_eq!(Mnemonic::Cmpsd as u16, MNEMONIC_CMPSD);
    assert_eq!(Mnemonic::Scasb as u16, MNEMONIC_SCASB);
    assert_eq!(Mnemonic::Scasw as u16, MNEMONIC_SCASW);
    assert_eq!(Mnemonic::Scasd as u16, MNEMONIC_SCASD);
    assert_eq!(Mnemonic::Lodsb as u16, MNEMONIC_LODSB);
    assert_eq!(Mnemonic::Lodsw as u16, MNEMONIC_LODSW);
    assert_eq!(Mnemonic::Lodsd as u16, MNEMONIC_LODSD);
    assert_eq!(Mnemonic::Stosb as u16, MNEMONIC_STOSB);
    assert_eq!(Mnemonic::Stosw as u16, MNEMONIC_STOSW);
    assert_eq!(Mnemonic::Stosd as u16, MNEMONIC_STOSD);
    assert_eq!(Mnemonic::Insb as u16, MNEMONIC_INSB);
    assert_eq!(Mnemonic::Insw as u16, MNEMONIC_INSW);
    assert_eq!(Mnemonic::Insd as u16, MNEMONIC_INSD);
    assert_eq!(Mnemonic::Outsb as u16, MNEMONIC_OUTSB);
    assert_eq!(Mnemonic::Outsw as u16, MNEMONIC_OUTSW);
    assert_eq!(Mnemonic::Outsd as u16, MNEMONIC_OUTSD);
    assert_eq!(Mnemonic::Enter as u16, MNEMONIC_ENTER);
    assert_eq!(Mnemonic::Pusha as u16, MNEMONIC_PUSHA);
    assert_eq!(Mnemonic::Pushad as u16, MNEMONIC_PUSHAD);
    assert_eq!(Mnemonic::Popa as u16, MNEMONIC_POPA);
    assert_eq!(Mnemonic::Popad as u16, MNEMONIC_POPAD);
    assert_eq!(Mnemonic::In as u16, MNEMONIC_IN);
    assert_eq!(Mnemonic::Out as u16, MNEMONIC_OUT);
    assert_eq!(Mnemonic::Mov as u16, MNEMONIC_MOV);
    assert_eq!(Mnemonic::Seto as u16, MNEMONIC_SETO);
    assert_eq!(Mnemonic::Setno as u16, MNEMONIC_SETNO);
    assert_eq!(Mnemonic::Setb as u16, MNEMONIC_SETB);
    assert_eq!(Mnemonic::Setae as u16, MNEMONIC_SETAE);
    assert_eq!(Mnemonic::Sete as u16, MNEMONIC_SETE);
    assert_eq!(Mnemonic::Setne as u16, MNEMONIC_SETNE);
    assert_eq!(Mnemonic::Setbe as u16, MNEMONIC_SETBE);
    assert_eq!(Mnemonic::Seta as u16, MNEMONIC_SETA);
    assert_eq!(Mnemonic::Sets as u16, MNEMONIC_SETS);
    assert_eq!(Mnemonic::Setns as u16, MNEMONIC_SETNS);
    assert_eq!(Mnemonic::Setp as u16, MNEMONIC_SETP);
    assert_eq!(Mnemonic::Setnp as u16, MNEMONIC_SETNP);
    assert_eq!(Mnemonic::Setl as u16, MNEMONIC_SETL);
    assert_eq!(Mnemonic::Setge as u16, MNEMONIC_SETGE);
    assert_eq!(Mnemonic::Setle as u16, MNEMONIC_SETLE);
    assert_eq!(Mnemonic::Setg as u16, MNEMONIC_SETG);
    assert_eq!(Mnemonic::Jmp as u16, MNEMONIC_JMP);
    assert_eq!(Mnemonic::Test as u16, MNEMONIC_TEST);
    assert_eq!(Mnemonic::Cmp as u16, MNEMONIC_CMP);
    assert_eq!(Mnemonic::Xlatb as u16, MNEMONIC_XLATB);
    assert_eq!(Mnemonic::Mul as u16, MNEMONIC_MUL);
    assert_eq!(Mnemonic::Imul as u16, MNEMONIC_IMUL);
    assert_eq!(Mnemonic::Div as u16, MNEMONIC_DIV);
    assert_eq!(Mnemonic::Idiv as u16, MNEMONIC_IDIV);
    assert_eq!(Mnemonic::Bt as u16, MNEMONIC_BT);
    assert_eq!(Mnemonic::Bts as u16, MNEMONIC_BTS);
    assert_eq!(Mnemonic::Btr as u16, MNEMONIC_BTR);
    assert_eq!(Mnemonic::Btc as u16, MNEMONIC_BTC);
    assert_eq!(Mnemonic::Rcl as u16, MNEMONIC_RCL);
    assert_eq!(Mnemonic::Rcr as u16, MNEMONIC_RCR);
    assert_eq!(Mnemonic::Shl as u16, MNEMONIC_SHL);
    assert_eq!(Mnemonic::Shr as u16, MNEMONIC_SHR);
    assert_eq!(Mnemonic::Sal as u16, MNEMONIC_SAL);
    assert_eq!(Mnemonic::Sar as u16, MNEMONIC_SAR);
    assert_eq!(Mnemonic::Rol as u16, MNEMONIC_ROL);
    assert_eq!(Mnemonic::Ror as u16, MNEMONIC_ROR);
    assert_eq!(Mnemonic::Call as u16, MNEMONIC_CALL);
    assert_eq!(Mnemonic::Lea as u16, MNEMONIC_LEA);
    assert_eq!(Mnemonic::Xchg as u16, MNEMONIC_XCHG);
    assert_eq!(Mnemonic::Pop as u16, MNEMONIC_POP);
    assert_eq!(OpCodeTableKind::T0F as u8, OPCODE_TABLE_T0F);
    assert_eq!(OpCodeOperandKind::r8_opcode as u8, OPCODE_OPERAND_R8_OPCODE);
    assert_eq!(OpCodeOperandKind::r16_opcode as u8, OPCODE_OPERAND_R16_OPCODE);
    assert_eq!(OpCodeOperandKind::r32_opcode as u8, OPCODE_OPERAND_R32_OPCODE);
    assert_eq!(Mnemonic::Push as u16, MNEMONIC_PUSH);
    assert_eq!(OpKind::Register as u8, OPKIND_REGISTER);
    assert_eq!(OpKind::NearBranch16 as u8, OPKIND_NEAR_BRANCH16);
    assert_eq!(OpKind::NearBranch32 as u8, OPKIND_NEAR_BRANCH32);
    assert_eq!(OpKind::Immediate8 as u8, OPKIND_IMMEDIATE8);
    assert_eq!(OpKind::FarBranch32 as u8, OPKIND_FAR_BRANCH32);
    assert_eq!(OpKind::Immediate16 as u8, OPKIND_IMMEDIATE16);
    assert_eq!(OpKind::Immediate32 as u8, OPKIND_IMMEDIATE32);
    assert_eq!(OpKind::Immediate64 as u8, OPKIND_IMMEDIATE64);
    assert_eq!(OpKind::Immediate8to16 as u8, OPKIND_IMMEDIATE8TO16);
    assert_eq!(OpKind::Immediate8to32 as u8, OPKIND_IMMEDIATE8TO32);
    assert_eq!(OpKind::Immediate8to64 as u8, OPKIND_IMMEDIATE8TO64);
    assert_eq!(OpKind::Immediate32to64 as u8, OPKIND_IMMEDIATE32TO64);
    assert_eq!(OpKind::Memory as u8, OPKIND_MEMORY);
    assert_eq!(Code::INVALID as u16, CODE_INVALID);
    assert_eq!(Register::None as u8, REGISTER_NONE);
    assert_eq!(Code::Retnw_imm16 as u16, CODE_RETNW_IMM16);
    assert_eq!(Code::Retnd_imm16 as u16, CODE_RETND_IMM16);
    assert_eq!(Code::Retnw as u16, CODE_RETNW);
    assert_eq!(Code::Retnd as u16, CODE_RETND);
    assert_eq!(Code::Retfw_imm16 as u16, CODE_RETFW_IMM16);
    assert_eq!(Code::Retfd_imm16 as u16, CODE_RETFD_IMM16);
    assert_eq!(Code::Retfw as u16, CODE_RETFW);
    assert_eq!(Code::Retfd as u16, CODE_RETFD);
    assert_eq!(Code::Iretw as u16, CODE_IRETW);
    assert_eq!(Code::Iretd as u16, CODE_IRETD);
    assert_eq!(MemorySize::SegPtr16 as u8, MEMORY_SIZE_SEG_PTR16);
    assert_eq!(MemorySize::SegPtr32 as u8, MEMORY_SIZE_SEG_PTR32);
    assert_eq!(MemorySize::WordOffset as u8, MEMORY_SIZE_WORD_OFFSET);
    assert_eq!(MemorySize::DwordOffset as u8, MEMORY_SIZE_DWORD_OFFSET);
    assert_eq!(Register::AX as u8, REGISTER_AX);
    assert_eq!(Register::CX as u8, REGISTER_CX);
    assert_eq!(Register::DX as u8, REGISTER_DX);
    assert_eq!(Register::BX as u8, REGISTER_BX);
    assert_eq!(Register::SP as u8, REGISTER_SP);
    assert_eq!(Register::BP as u8, REGISTER_BP);
    assert_eq!(Register::SI as u8, REGISTER_SI);
    assert_eq!(Register::DI as u8, REGISTER_DI);
    assert_eq!(Register::EAX as u8, REGISTER_EAX);
    assert_eq!(Register::ECX as u8, REGISTER_ECX);
    assert_eq!(Register::EDX as u8, REGISTER_EDX);
    assert_eq!(Register::EBX as u8, REGISTER_EBX);
    assert_eq!(Register::ESP as u8, REGISTER_ESP);
    assert_eq!(Register::EBP as u8, REGISTER_EBP);
    assert_eq!(Register::ESI as u8, REGISTER_ESI);
    assert_eq!(Register::EDI as u8, REGISTER_EDI);
    assert_eq!(Register::ES as u8, REGISTER_ES);
    assert_eq!(Register::CS as u8, REGISTER_CS);
    assert_eq!(Register::SS as u8, REGISTER_SS);
    assert_eq!(Register::DS as u8, REGISTER_DS);
    assert_eq!(Register::FS as u8, REGISTER_FS);
    assert_eq!(Register::GS as u8, REGISTER_GS);
}
