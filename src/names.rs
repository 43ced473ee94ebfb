//! Register, addressing-base and mnemonic names, and the tables that map
//! instruction fields onto them.
use vstd::prelude::*;

verus! {

/// A register operand.
#[derive(Clone, Copy, Debug, PartialEq, Eq, Structural)]
pub enum Register {
    Al,
    Cl,
    Dl,
    Bl,
    Ah,
    Ch,
    Dh,
    Bh,
    Ax,
    Cx,
    Dx,
    Bx,
    Sp,
    Bp,
    Si,
    Di,
    Es,
    Cs,
    Ss,
    Ds,
}

/// The base of a register-indirect memory operand.
#[derive(Clone, Copy, Debug, PartialEq, Eq, Structural)]
pub enum Base {
    BxSi,
    BxDi,
    BpSi,
    BpDi,
    Si,
    Di,
    Bp,
    Bx,
}

/// An instruction mnemonic.
#[derive(Clone, Copy, Debug, PartialEq, Eq, Structural)]
pub enum Mnemonic {
    Mov,
    Add,
    Or,
    Adc,
    Sbb,
    And,
    Sub,
    Xor,
    Cmp,
    Xchg,
    Test,
    Push,
    Pop,
    Inc,
    Dec,
    Lea,
    Lds,
    Les,
    In,
    Out,
    Jo,
    Jno,
    Jb,
    Jnb,
    Je,
    Jne,
    Jbe,
    Ja,
    Js,
    Jns,
    Jp,
    Jnp,
    Jl,
    Jge,
    Jle,
    Jg,
    Loopnz,
    Loopz,
    Loop,
    Jcxz,
    Not,
    Neg,
    Mul,
    Imul,
    Div,
    Idiv,
    Call,
    Jmp,
    Xlat,
    Lahf,
    Sahf,
    Pushf,
    Popf,
    Aaa,
    Daa,
    Aas,
    Das,
    Aam,
}

/// The register that a 3-bit register field selects: 8-bit when `wide` is false.
pub open spec fn general_register(wide: bool, field: u8) -> Register {
    if wide {
        match field {
            0 => Register::Ax,
            1 => Register::Cx,
            2 => Register::Dx,
            3 => Register::Bx,
            4 => Register::Sp,
            5 => Register::Bp,
            6 => Register::Si,
            _ => Register::Di,
        }
    } else {
        match field {
            0 => Register::Al,
            1 => Register::Cl,
            2 => Register::Dl,
            3 => Register::Bl,
            4 => Register::Ah,
            5 => Register::Ch,
            6 => Register::Dh,
            _ => Register::Bh,
        }
    }
}

/// The segment register that a 2-bit segment field selects.
pub open spec fn segment_register(field: u8) -> Register {
    match field {
        0 => Register::Es,
        1 => Register::Cs,
        2 => Register::Ss,
        _ => Register::Ds,
    }
}

/// The base of the memory operand that a 3-bit r/m field selects.
pub open spec fn memory_base(field: u8) -> Base {
    match field {
        0 => Base::BxSi,
        1 => Base::BxDi,
        2 => Base::BpSi,
        3 => Base::BpDi,
        4 => Base::Si,
        5 => Base::Di,
        6 => Base::Bp,
        _ => Base::Bx,
    }
}

/// The arithmetic operation that a 3-bit group field selects.
pub open spec fn alu_mnemonic(field: u8) -> Mnemonic {
    match field {
        0 => Mnemonic::Add,
        1 => Mnemonic::Or,
        2 => Mnemonic::Adc,
        3 => Mnemonic::Sbb,
        4 => Mnemonic::And,
        5 => Mnemonic::Sub,
        6 => Mnemonic::Xor,
        _ => Mnemonic::Cmp,
    }
}

/// The conditional jump that the low four bits of its opcode select.
pub open spec fn cond_jump_mnemonic(field: u8) -> Mnemonic {
    match field {
        0 => Mnemonic::Jo,
        1 => Mnemonic::Jno,
        2 => Mnemonic::Jb,
        3 => Mnemonic::Jnb,
        4 => Mnemonic::Je,
        5 => Mnemonic::Jne,
        6 => Mnemonic::Jbe,
        7 => Mnemonic::Ja,
        8 => Mnemonic::Js,
        9 => Mnemonic::Jns,
        10 => Mnemonic::Jp,
        11 => Mnemonic::Jnp,
        12 => Mnemonic::Jl,
        13 => Mnemonic::Jge,
        14 => Mnemonic::Jle,
        _ => Mnemonic::Jg,
    }
}

/// The loop instruction that the low two bits of its opcode select.
pub open spec fn loop_mnemonic(field: u8) -> Mnemonic {
    match field {
        0 => Mnemonic::Loopnz,
        1 => Mnemonic::Loopz,
        2 => Mnemonic::Loop,
        _ => Mnemonic::Jcxz,
    }
}

/// The unary operation of opcodes `F6`/`F7` that a 3-bit `reg` field selects; `test` has two slots.
pub open spec fn group1_mnemonic(field: u8) -> Mnemonic {
    match field {
        0 => Mnemonic::Test,
        1 => Mnemonic::Test,
        2 => Mnemonic::Not,
        3 => Mnemonic::Neg,
        4 => Mnemonic::Mul,
        5 => Mnemonic::Imul,
        6 => Mnemonic::Div,
        _ => Mnemonic::Idiv,
    }
}

/// The unary operation of opcodes `FE`/`FF` that a 3-bit `reg` field selects; the last slot is reserved.
pub open spec fn group2_mnemonic(field: u8) -> Option<Mnemonic> {
    match field {
        0 => Some(Mnemonic::Inc),
        1 => Some(Mnemonic::Dec),
        2 => Some(Mnemonic::Call),
        3 => Some(Mnemonic::Call),
        4 => Some(Mnemonic::Jmp),
        5 => Some(Mnemonic::Jmp),
        6 => Some(Mnemonic::Push),
        _ => None,
    }
}

/// The assembler name of a register.
pub open spec fn register_text(x: Register) -> Seq<char> {
    match x {
        Register::Al => "al"@,
        Register::Cl => "cl"@,
        Register::Dl => "dl"@,
        Register::Bl => "bl"@,
        Register::Ah => "ah"@,
        Register::Ch => "ch"@,
        Register::Dh => "dh"@,
        Register::Bh => "bh"@,
        Register::Ax => "ax"@,
        Register::Cx => "cx"@,
        Register::Dx => "dx"@,
        Register::Bx => "bx"@,
        Register::Sp => "sp"@,
        Register::Bp => "bp"@,
        Register::Si => "si"@,
        Register::Di => "di"@,
        Register::Es => "es"@,
        Register::Cs => "cs"@,
        Register::Ss => "ss"@,
        Register::Ds => "ds"@,
    }
}

/// The text of a memory base inside brackets.
pub open spec fn base_text(x: Base) -> Seq<char> {
    match x {
        Base::BxSi => "bx + si"@,
        Base::BxDi => "bx + di"@,
        Base::BpSi => "bp + si"@,
        Base::BpDi => "bp + di"@,
        Base::Si => "si"@,
        Base::Di => "di"@,
        Base::Bp => "bp"@,
        Base::Bx => "bx"@,
    }
}

/// The assembler text of a mnemonic.
pub open spec fn mnemonic_text(x: Mnemonic) -> Seq<char> {
    match x {
        Mnemonic::Mov => "mov"@,
        Mnemonic::Add => "add"@,
        Mnemonic::Or => "or"@,
        Mnemonic::Adc => "adc"@,
        Mnemonic::Sbb => "sbb"@,
        Mnemonic::And => "and"@,
        Mnemonic::Sub => "sub"@,
        Mnemonic::Xor => "xor"@,
        Mnemonic::Cmp => "cmp"@,
        Mnemonic::Xchg => "xchg"@,
        Mnemonic::Test => "test"@,
        Mnemonic::Push => "push"@,
        Mnemonic::Pop => "pop"@,
        Mnemonic::Inc => "inc"@,
        Mnemonic::Dec => "dec"@,
        Mnemonic::Lea => "lea"@,
        Mnemonic::Lds => "lds"@,
        Mnemonic::Les => "les"@,
        Mnemonic::In => "in"@,
        Mnemonic::Out => "out"@,
        Mnemonic::Jo => "jo"@,
        Mnemonic::Jno => "jno"@,
        Mnemonic::Jb => "jb"@,
        Mnemonic::Jnb => "jnb"@,
        Mnemonic::Je => "je"@,
        Mnemonic::Jne => "jne"@,
        Mnemonic::Jbe => "jbe"@,
        Mnemonic::Ja => "ja"@,
        Mnemonic::Js => "js"@,
        Mnemonic::Jns => "jns"@,
        Mnemonic::Jp => "jp"@,
        Mnemonic::Jnp => "jnp"@,
        Mnemonic::Jl => "jl"@,
        Mnemonic::Jge => "jge"@,
        Mnemonic::Jle => "jle"@,
        Mnemonic::Jg => "jg"@,
        Mnemonic::Loopnz => "loopnz"@,
        Mnemonic::Loopz => "loopz"@,
        Mnemonic::Loop => "loop"@,
        Mnemonic::Jcxz => "jcxz"@,
        Mnemonic::Not => "not"@,
        Mnemonic::Neg => "neg"@,
        Mnemonic::Mul => "mul"@,
        Mnemonic::Imul => "imul"@,
        Mnemonic::Div => "div"@,
        Mnemonic::Idiv => "idiv"@,
        Mnemonic::Call => "call"@,
        Mnemonic::Jmp => "jmp"@,
        Mnemonic::Xlat => "xlat"@,
        Mnemonic::Lahf => "lahf"@,
        Mnemonic::Sahf => "sahf"@,
        Mnemonic::Pushf => "pushf"@,
        Mnemonic::Popf => "popf"@,
        Mnemonic::Aaa => "aaa"@,
        Mnemonic::Daa => "daa"@,
        Mnemonic::Aas => "aas"@,
        Mnemonic::Das => "das"@,
        Mnemonic::Aam => "aam"@,
    }
}

impl Register {
    /// The assembler name of this register.
    pub fn name(&self) -> (r: &'static str)
        ensures
            r@ == register_text(*self),
    {
        match self {
            Register::Al => "al",
            Register::Cl => "cl",
            Register::Dl => "dl",
            Register::Bl => "bl",
            Register::Ah => "ah",
            Register::Ch => "ch",
            Register::Dh => "dh",
            Register::Bh => "bh",
            Register::Ax => "ax",
            Register::Cx => "cx",
            Register::Dx => "dx",
            Register::Bx => "bx",
            Register::Sp => "sp",
            Register::Bp => "bp",
            Register::Si => "si",
            Register::Di => "di",
            Register::Es => "es",
            Register::Cs => "cs",
            Register::Ss => "ss",
            Register::Ds => "ds",
        }
    }

    /// The register that a 3-bit register field selects: 8-bit when `wide` is false.
    pub fn general(wide: bool, field: u8) -> (r: Register)
        ensures
            r == general_register(wide, field),
    {
        if wide {
            match field {
                0 => Register::Ax,
                1 => Register::Cx,
                2 => Register::Dx,
                3 => Register::Bx,
                4 => Register::Sp,
                5 => Register::Bp,
                6 => Register::Si,
                _ => Register::Di,
            }
        } else {
            match field {
                0 => Register::Al,
                1 => Register::Cl,
                2 => Register::Dl,
                3 => Register::Bl,
                4 => Register::Ah,
                5 => Register::Ch,
                6 => Register::Dh,
                _ => Register::Bh,
            }
        }
    }

    /// The segment register that a 2-bit segment field selects.
    pub fn segment(field: u8) -> (r: Register)
        ensures
            r == segment_register(field),
    {
        match field {
            0 => Register::Es,
            1 => Register::Cs,
            2 => Register::Ss,
            _ => Register::Ds,
        }
    }
}

impl Base {
    /// The text of this base inside brackets.
    pub fn name(&self) -> (r: &'static str)
        ensures
            r@ == base_text(*self),
    {
        match self {
            Base::BxSi => "bx + si",
            Base::BxDi => "bx + di",
            Base::BpSi => "bp + si",
            Base::BpDi => "bp + di",
            Base::Si => "si",
            Base::Di => "di",
            Base::Bp => "bp",
            Base::Bx => "bx",
        }
    }

    /// The base of the memory operand that a 3-bit r/m field selects.
    pub fn from_field(field: u8) -> (r: Base)
        ensures
            r == memory_base(field),
    {
        match field {
            0 => Base::BxSi,
            1 => Base::BxDi,
            2 => Base::BpSi,
            3 => Base::BpDi,
            4 => Base::Si,
            5 => Base::Di,
            6 => Base::Bp,
            _ => Base::Bx,
        }
    }
}

impl Mnemonic {
    /// The assembler text of this mnemonic.
    pub fn name(&self) -> (r: &'static str)
        ensures
            r@ == mnemonic_text(*self),
    {
        match self {
            Mnemonic::Mov => "mov",
            Mnemonic::Add => "add",
            Mnemonic::Or => "or",
            Mnemonic::Adc => "adc",
            Mnemonic::Sbb => "sbb",
            Mnemonic::And => "and",
            Mnemonic::Sub => "sub",
            Mnemonic::Xor => "xor",
            Mnemonic::Cmp => "cmp",
            Mnemonic::Xchg => "xchg",
            Mnemonic::Test => "test",
            Mnemonic::Push => "push",
            Mnemonic::Pop => "pop",
            Mnemonic::Inc => "inc",
            Mnemonic::Dec => "dec",
            Mnemonic::Lea => "lea",
            Mnemonic::Lds => "lds",
            Mnemonic::Les => "les",
            Mnemonic::In => "in",
            Mnemonic::Out => "out",
            Mnemonic::Jo => "jo",
            Mnemonic::Jno => "jno",
            Mnemonic::Jb => "jb",
            Mnemonic::Jnb => "jnb",
            Mnemonic::Je => "je",
            Mnemonic::Jne => "jne",
            Mnemonic::Jbe => "jbe",
            Mnemonic::Ja => "ja",
            Mnemonic::Js => "js",
            Mnemonic::Jns => "jns",
            Mnemonic::Jp => "jp",
            Mnemonic::Jnp => "jnp",
            Mnemonic::Jl => "jl",
            Mnemonic::Jge => "jge",
            Mnemonic::Jle => "jle",
            Mnemonic::Jg => "jg",
            Mnemonic::Loopnz => "loopnz",
            Mnemonic::Loopz => "loopz",
            Mnemonic::Loop => "loop",
            Mnemonic::Jcxz => "jcxz",
            Mnemonic::Not => "not",
            Mnemonic::Neg => "neg",
            Mnemonic::Mul => "mul",
            Mnemonic::Imul => "imul",
            Mnemonic::Div => "div",
            Mnemonic::Idiv => "idiv",
            Mnemonic::Call => "call",
            Mnemonic::Jmp => "jmp",
            Mnemonic::Xlat => "xlat",
            Mnemonic::Lahf => "lahf",
            Mnemonic::Sahf => "sahf",
            Mnemonic::Pushf => "pushf",
            Mnemonic::Popf => "popf",
            Mnemonic::Aaa => "aaa",
            Mnemonic::Daa => "daa",
            Mnemonic::Aas => "aas",
            Mnemonic::Das => "das",
            Mnemonic::Aam => "aam",
        }
    }

    /// The arithmetic operation that a 3-bit group field selects.
    pub fn alu(field: u8) -> (r: Mnemonic)
        ensures
            r == alu_mnemonic(field),
    {
        match field {
            0 => Mnemonic::Add,
            1 => Mnemonic::Or,
            2 => Mnemonic::Adc,
            3 => Mnemonic::Sbb,
            4 => Mnemonic::And,
            5 => Mnemonic::Sub,
            6 => Mnemonic::Xor,
            _ => Mnemonic::Cmp,
        }
    }

    /// The conditional jump that the low four bits of its opcode select.
    pub fn cond_jump(field: u8) -> (r: Mnemonic)
        ensures
            r == cond_jump_mnemonic(field),
    {
        match field {
            0 => Mnemonic::Jo,
            1 => Mnemonic::Jno,
            2 => Mnemonic::Jb,
            3 => Mnemonic::Jnb,
            4 => Mnemonic::Je,
            5 => Mnemonic::Jne,
            6 => Mnemonic::Jbe,
            7 => Mnemonic::Ja,
            8 => Mnemonic::Js,
            9 => Mnemonic::Jns,
            10 => Mnemonic::Jp,
            11 => Mnemonic::Jnp,
            12 => Mnemonic::Jl,
            13 => Mnemonic::Jge,
            14 => Mnemonic::Jle,
            _ => Mnemonic::Jg,
        }
    }

    /// The loop instruction that the low two bits of its opcode select.
    pub fn loop_kind(field: u8) -> (r: Mnemonic)
        ensures
            r == loop_mnemonic(field),
    {
        match field {
            0 => Mnemonic::Loopnz,
            1 => Mnemonic::Loopz,
            2 => Mnemonic::Loop,
            _ => Mnemonic::Jcxz,
        }
    }

    /// The unary operation of opcodes `F6`/`F7` that a 3-bit `reg` field selects.
    pub fn group1(field: u8) -> (r: Mnemonic)
        ensures
            r == group1_mnemonic(field),
    {
        match field {
            0 => Mnemonic::Test,
            1 => Mnemonic::Test,
            2 => Mnemonic::Not,
            3 => Mnemonic::Neg,
            4 => Mnemonic::Mul,
            5 => Mnemonic::Imul,
            6 => Mnemonic::Div,
            _ => Mnemonic::Idiv,
        }
    }

    /// The unary operation of opcodes `FE`/`FF` that a 3-bit `reg` field selects;
    /// `None` for the reserved slot.
    pub fn group2(field: u8) -> (r: Option<Mnemonic>)
        ensures
            r == group2_mnemonic(field),
    {
        match field {
            0 => Some(Mnemonic::Inc),
            1 => Some(Mnemonic::Dec),
            2 => Some(Mnemonic::Call),
            3 => Some(Mnemonic::Call),
            4 => Some(Mnemonic::Jmp),
            5 => Some(Mnemonic::Jmp),
            6 => Some(Mnemonic::Push),
            _ => None,
        }
    }
}

} // verus!
