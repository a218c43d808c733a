//! The backend code generator's core: the per-target compile context, the
//! per-backend type-name, variable-reference and built-in-call mapping
//! tables, and the color-literal rewrite. Every emitted token is pinned by a
//! spec function over character sequences, so the two backends can be
//! compared member for member.

use vstd::prelude::*;
use vstd::string::StringExecFns;
use crate::types::{ShTy, ShVar, ShVarStore, ShaderCompileError};

verus! {

/// Which stage is being generated. Constant generation runs before either
/// stage wrapper and may reference only literals, constants and built-ins.
#[derive(Clone, Copy, PartialEq, Eq, Structural, Debug)]
pub enum SlTarget {
    Constant,
    Vertex,
    Pixel,
}

/// The native shading language being generated.
#[derive(Clone, Copy, PartialEq, Eq, Structural, Debug)]
pub enum Backend {
    Hlsl,
    Metal,
}

/// One emitted expression: its source text and its abstract type.
pub struct Sl {
    pub sl: String,
    pub ty: ShTy,
}

/// Ghost mirror of `Sl`.
pub ghost struct SlV {
    pub sl: Seq<char>,
    pub ty: ShTy,
}

pub open spec fn sl_view(s: Sl) -> SlV {
    SlV { sl: s.sl@, ty: s.ty }
}

pub open spec fn sls_view(s: Seq<Sl>) -> Seq<SlV> {
    s.map_values(|x: Sl| sl_view(x))
}

/// How a backend maps one built-in call: keep the call with a new name,
/// replace it with new source text of a known type, or refuse it. A refused
/// built-in is a hard compile error, never a silent pass-through.
pub enum MapCallResult {
    Rename(String),
    Rewrite(String, ShTy),
    Unhandled,
}

/// Ghost mirror of `MapCallResult`.
pub ghost enum MapCallResultV {
    Rename(Seq<char>),
    Rewrite(Seq<char>, ShTy),
    Unhandled,
}

pub open spec fn map_call_result_view(r: MapCallResult) -> MapCallResultV {
    match r {
        MapCallResult::Rename(n) => MapCallResultV::Rename(n@),
        MapCallResult::Rewrite(t, ty) => MapCallResultV::Rewrite(t@, ty),
        MapCallResult::Unhandled => MapCallResultV::Unhandled,
    }
}

/// The HLSL spelling of each abstract type.
pub open spec fn hlsl_type_text(t: ShTy) -> Seq<char> {
    match t {
        ShTy::Bool => "bool"@,
        ShTy::Float => "float"@,
        ShTy::Vec2 => "float2"@,
        ShTy::Vec3 => "float3"@,
        ShTy::Vec4 => "float4"@,
        ShTy::Mat2 => "float2x2"@,
        ShTy::Mat3 => "float3x3"@,
        ShTy::Mat4 => "float4x4"@,
        ShTy::Texture2D => "Texture2D"@,
    }
}

/// The Metal spelling of each abstract type.
pub open spec fn metal_type_text(t: ShTy) -> Seq<char> {
    match t {
        ShTy::Bool => "bool"@,
        ShTy::Float => "float"@,
        ShTy::Vec2 => "float2"@,
        ShTy::Vec3 => "float3"@,
        ShTy::Vec4 => "float4"@,
        ShTy::Mat2 => "float2x2"@,
        ShTy::Mat3 => "float3x3"@,
        ShTy::Mat4 => "float4x4"@,
        ShTy::Texture2D => "texture2d<float>"@,
    }
}

/// The packed Metal spelling of each abstract type, used in the byte-packed
/// vertex and uniform structs.
pub open spec fn metal_packed_type_text(t: ShTy) -> Seq<char> {
    match t {
        ShTy::Bool => "bool"@,
        ShTy::Float => "float"@,
        ShTy::Vec2 => "packed_float2"@,
        ShTy::Vec3 => "packed_float3"@,
        ShTy::Vec4 => "packed_float4"@,
        ShTy::Mat2 => "packed_float2x2"@,
        ShTy::Mat3 => "packed_float3x3"@,
        ShTy::Mat4 => "float4x4"@,
        ShTy::Texture2D => "texture2d<float>"@,
    }
}

/// The spelling a backend uses for an abstract type in function bodies.
pub open spec fn map_type_text(bk: Backend, t: ShTy) -> Seq<char> {
    match bk {
        Backend::Hlsl => hlsl_type_text(t),
        Backend::Metal => metal_type_text(t),
    }
}

/// The token text of each binary operator.
pub open spec fn bin_op_text(op: crate::ir::BinOp) -> Seq<char> {
    match op {
        crate::ir::BinOp::Add => "+"@,
        crate::ir::BinOp::Sub => "-"@,
        crate::ir::BinOp::Mul => "*"@,
        crate::ir::BinOp::Div => "/"@,
        crate::ir::BinOp::Lt => "<"@,
        crate::ir::BinOp::Gt => ">"@,
        crate::ir::BinOp::Le => "<="@,
        crate::ir::BinOp::Ge => ">="@,
        crate::ir::BinOp::EqEq => "=="@,
        crate::ir::BinOp::Ne => "!="@,
    }
}

/// The token text of each unary operator.
pub open spec fn un_op_text(op: crate::ir::UnOp) -> Seq<char> {
    match op {
        crate::ir::UnOp::Neg => "-"@,
        crate::ir::UnOp::Not => "!"@,
    }
}

/// The executable token of a binary operator.
pub fn bin_op_str(op: crate::ir::BinOp) -> (r: &'static str)
    ensures
        r@ == bin_op_text(op),
{
    match op {
        crate::ir::BinOp::Add => "+",
        crate::ir::BinOp::Sub => "-",
        crate::ir::BinOp::Mul => "*",
        crate::ir::BinOp::Div => "/",
        crate::ir::BinOp::Lt => "<",
        crate::ir::BinOp::Gt => ">",
        crate::ir::BinOp::Le => "<=",
        crate::ir::BinOp::Ge => ">=",
        crate::ir::BinOp::EqEq => "==",
        crate::ir::BinOp::Ne => "!=",
    }
}

/// The executable token of a unary operator.
pub fn un_op_str(op: crate::ir::UnOp) -> (r: &'static str)
    ensures
        r@ == un_op_text(op),
{
    match op {
        crate::ir::UnOp::Neg => "-",
        crate::ir::UnOp::Not => "!",
    }
}

/// Whether a character is an ASCII hexadecimal digit.
pub open spec fn is_hex_digit(c: char) -> bool {
    ('0' <= c && c <= '9') || ('a' <= c && c <= 'f') || ('A' <= c && c <= 'F')
}

/// The value of an ASCII hexadecimal digit.
pub open spec fn hex_val(c: char) -> int {
    if '0' <= c && c <= '9' {
        c as int - '0' as int
    } else if 'a' <= c && c <= 'f' {
        c as int - 'a' as int + 10
    } else {
        c as int - 'A' as int + 10
    }
}

/// The character of one decimal digit.
pub open spec fn digit_char(d: int) -> char {
    if d == 0 {
        '0'
    } else if d == 1 {
        '1'
    } else if d == 2 {
        '2'
    } else if d == 3 {
        '3'
    } else if d == 4 {
        '4'
    } else if d == 5 {
        '5'
    } else if d == 6 {
        '6'
    } else if d == 7 {
        '7'
    } else if d == 8 {
        '8'
    } else {
        '9'
    }
}

/// Decimal text of a channel value between 0 and 255.
pub open spec fn dec3_text(v: int) -> Seq<char> {
    if v >= 100 {
        seq![digit_char(v / 100), digit_char((v / 10) % 10), digit_char(v % 10)]
    } else if v >= 10 {
        seq![digit_char(v / 10), digit_char(v % 10)]
    } else {
        seq![digit_char(v)]
    }
}

/// Source text of one color channel: an exact rational of the byte value.
pub open spec fn channel_text(v: int) -> Seq<char> {
    dec3_text(v) + ".0/255.0"@
}

/// The `float4` constructor a hex color literal rewrites to: `#rgb` and
/// `#rrggbb` forms, alpha fixed at one. Anything else is refused.
pub open spec fn color_text(s: Seq<char>) -> Option<Seq<char>> {
    if s.len() == 4 && s[0] == '#' && is_hex_digit(s[1]) && is_hex_digit(s[2]) && is_hex_digit(
        s[3],
    ) {
        Some(
            "float4("@ + channel_text(17 * hex_val(s[1])) + ","@ + channel_text(17 * hex_val(s[2]))
                + ","@ + channel_text(17 * hex_val(s[3])) + ",1.0)"@,
        )
    } else if s.len() == 7 && s[0] == '#' && is_hex_digit(s[1]) && is_hex_digit(s[2])
        && is_hex_digit(s[3]) && is_hex_digit(s[4]) && is_hex_digit(s[5]) && is_hex_digit(s[6]) {
        Some(
            "float4("@ + channel_text(16 * hex_val(s[1]) + hex_val(s[2])) + ","@ + channel_text(
                16 * hex_val(s[3]) + hex_val(s[4]),
            ) + ","@ + channel_text(16 * hex_val(s[5]) + hex_val(s[6])) + ",1.0)"@,
        )
    } else {
        None
    }
}

/// Executable hexadecimal digit test.
pub fn hex_digit(c: char) -> (r: bool)
    ensures
        r == is_hex_digit(c),
{
    ('0' <= c && c <= '9') || ('a' <= c && c <= 'f') || ('A' <= c && c <= 'F')
}

/// Executable hexadecimal digit value.
pub fn hex_digit_val(c: char) -> (r: u32)
    requires
        is_hex_digit(c),
    ensures
        r == hex_val(c),
        r < 16,
{
    let u = c as u32;
    if c >= '0' && c <= '9' {
        u - ('0' as u32)
    } else if c >= 'a' && c <= 'f' {
        u - ('a' as u32) + 10
    } else {
        u - ('A' as u32) + 10
    }
}

/// Executable decimal digit text.
pub fn digit_to_str(d: u32) -> (r: &'static str)
    requires
        d < 10,
    ensures
        r@ == seq![digit_char(d as int)],
{
    proof {
        reveal_strlit("0");
        reveal_strlit("1");
        reveal_strlit("2");
        reveal_strlit("3");
        reveal_strlit("4");
        reveal_strlit("5");
        reveal_strlit("6");
        reveal_strlit("7");
        reveal_strlit("8");
        reveal_strlit("9");
    }
    let r = match d {
        0u32 => "0",
        1u32 => "1",
        2u32 => "2",
        3u32 => "3",
        4u32 => "4",
        5u32 => "5",
        6u32 => "6",
        7u32 => "7",
        8u32 => "8",
        _ => "9",
    };
    proof {
        assert(r@ =~= seq![digit_char(d as int)]);
    }
    r
}

/// The ASCII-uppercased character; anything but a lowercase ASCII letter is
/// kept as it is.
pub open spec fn upper_char(c: char) -> char {
    if c == 'a' {
        'A'
    } else if c == 'b' {
        'B'
    } else if c == 'c' {
        'C'
    } else if c == 'd' {
        'D'
    } else if c == 'e' {
        'E'
    } else if c == 'f' {
        'F'
    } else if c == 'g' {
        'G'
    } else if c == 'h' {
        'H'
    } else if c == 'i' {
        'I'
    } else if c == 'j' {
        'J'
    } else if c == 'k' {
        'K'
    } else if c == 'l' {
        'L'
    } else if c == 'm' {
        'M'
    } else if c == 'n' {
        'N'
    } else if c == 'o' {
        'O'
    } else if c == 'p' {
        'P'
    } else if c == 'q' {
        'Q'
    } else if c == 'r' {
        'R'
    } else if c == 's' {
        'S'
    } else if c == 't' {
        'T'
    } else if c == 'u' {
        'U'
    } else if c == 'v' {
        'V'
    } else if c == 'w' {
        'W'
    } else if c == 'x' {
        'X'
    } else if c == 'y' {
        'Y'
    } else if c == 'z' {
        'Z'
    } else {
        c
    }
}

/// A text with each character ASCII-uppercased, as the HLSL semantic names
/// spell the member they bind.
pub open spec fn upper_text(s: Seq<char>) -> Seq<char> {
    s.map_values(|c: char| upper_char(c))
}

/// Executable uppercase of one lowercase ASCII letter.
pub fn upper_letter_str(c: char) -> (r: &'static str)
    requires
        'a' <= c && c <= 'z',
    ensures
        r@ == seq![upper_char(c)],
{
    proof {
        reveal_strlit("A");
        reveal_strlit("B");
        reveal_strlit("C");
        reveal_strlit("D");
        reveal_strlit("E");
        reveal_strlit("F");
        reveal_strlit("G");
        reveal_strlit("H");
        reveal_strlit("I");
        reveal_strlit("J");
        reveal_strlit("K");
        reveal_strlit("L");
        reveal_strlit("M");
        reveal_strlit("N");
        reveal_strlit("O");
        reveal_strlit("P");
        reveal_strlit("Q");
        reveal_strlit("R");
        reveal_strlit("S");
        reveal_strlit("T");
        reveal_strlit("U");
        reveal_strlit("V");
        reveal_strlit("W");
        reveal_strlit("X");
        reveal_strlit("Y");
        reveal_strlit("Z");
    }
    let r = match c {
        'a' => "A",
        'b' => "B",
        'c' => "C",
        'd' => "D",
        'e' => "E",
        'f' => "F",
        'g' => "G",
        'h' => "H",
        'i' => "I",
        'j' => "J",
        'k' => "K",
        'l' => "L",
        'm' => "M",
        'n' => "N",
        'o' => "O",
        'p' => "P",
        'q' => "Q",
        'r' => "R",
        's' => "S",
        't' => "T",
        'u' => "U",
        'v' => "V",
        'w' => "W",
        'x' => "X",
        'y' => "Y",
        _ => "Z",
    };
    proof {
        assert(r@ =~= seq![upper_char(c)]);
    }
    r
}

/// The ASCII-uppercased copy of a name.
pub fn to_upper(s: &str) -> (r: String)
    ensures
        r@ == upper_text(s@),
{
    let n = s.unicode_len();
    let mut out = String::new();
    proof {
        assert(upper_text(s@.take(0)) =~= Seq::<char>::empty());
    }
    let mut i: usize = 0;
    while i < n
        invariant
            n == s@.len(),
            i <= n,
            out@ == upper_text(s@.take(i as int)),
        decreases n - i,
    {
        let ghost out0 = out@;
        let c = s.get_char(i);
        if c >= 'a' && c <= 'z' {
            out.append(upper_letter_str(c));
        } else {
            let piece = s.substring_char(i, i + 1);
            proof {
                assert(piece@ =~= seq![s@[i as int]]);
                assert(upper_char(s@[i as int]) == s@[i as int]);
            }
            out.append(piece);
        }
        proof {
            assert(out@ =~= out0.push(upper_char(s@[i as int])));
            assert(upper_text(s@.take(i + 1 as int)) =~= upper_text(s@.take(i as int)).push(
                upper_char(s@[i as int]),
            ));
        }
        i = i + 1;
    }
    proof {
        assert(s@.take(n as int) =~= s@);
    }
    out
}

/// Appends the channel text of one byte value.
pub fn push_channel_text(out: &mut String, v: u32)
    requires
        v <= 255,
    ensures
        final(out)@ == old(out)@ + channel_text(v as int),
{
    if v >= 100 {
        out.append(digit_to_str(v / 100));
        out.append(digit_to_str((v / 10) % 10));
        out.append(digit_to_str(v % 10));
    } else if v >= 10 {
        out.append(digit_to_str(v / 10));
        out.append(digit_to_str(v % 10));
    } else {
        out.append(digit_to_str(v));
    }
    proof {
        assert(old(out)@ + dec3_text(v as int) =~= out@);
    }
    out.append(".0/255.0");
}

/// Rewrites a hex color literal to a `float4` constructor, or refuses it.
pub fn color_rewrite(s: &str) -> (r: Option<String>)
    ensures
        match r {
            Some(t) => color_text(s@) == Some(t@),
            None => color_text(s@) is None,
        },
{
    let n = s.unicode_len();
    if n == 4 {
        let c0 = s.get_char(0);
        let c1 = s.get_char(1);
        let c2 = s.get_char(2);
        let c3 = s.get_char(3);
        if c0 == '#' && hex_digit(c1) && hex_digit(c2) && hex_digit(c3) {
            let mut out = String::new();
            out.append("float4(");
            push_channel_text(&mut out, 17 * hex_digit_val(c1));
            out.append(",");
            push_channel_text(&mut out, 17 * hex_digit_val(c2));
            out.append(",");
            push_channel_text(&mut out, 17 * hex_digit_val(c3));
            out.append(",1.0)");
            return Some(out);
        }
        return None;
    }
    if n == 7 {
        let c0 = s.get_char(0);
        let c1 = s.get_char(1);
        let c2 = s.get_char(2);
        let c3 = s.get_char(3);
        let c4 = s.get_char(4);
        let c5 = s.get_char(5);
        let c6 = s.get_char(6);
        if c0 == '#' && hex_digit(c1) && hex_digit(c2) && hex_digit(c3) && hex_digit(c4)
            && hex_digit(c5) && hex_digit(c6) {
            let mut out = String::new();
            out.append("float4(");
            push_channel_text(&mut out, 16 * hex_digit_val(c1) + hex_digit_val(c2));
            out.append(",");
            push_channel_text(&mut out, 16 * hex_digit_val(c3) + hex_digit_val(c4));
            out.append(",");
            push_channel_text(&mut out, 16 * hex_digit_val(c5) + hex_digit_val(c6));
            out.append(",1.0)");
            return Some(out);
        }
        return None;
    }
    None
}

/// Executable HLSL type name.
pub fn hlsl_type_str(t: ShTy) -> (r: &'static str)
    ensures
        r@ == hlsl_type_text(t),
{
    match t {
        ShTy::Bool => "bool",
        ShTy::Float => "float",
        ShTy::Vec2 => "float2",
        ShTy::Vec3 => "float3",
        ShTy::Vec4 => "float4",
        ShTy::Mat2 => "float2x2",
        ShTy::Mat3 => "float3x3",
        ShTy::Mat4 => "float4x4",
        ShTy::Texture2D => "Texture2D",
    }
}

/// Executable Metal type name.
pub fn metal_type_str(t: ShTy) -> (r: &'static str)
    ensures
        r@ == metal_type_text(t),
{
    match t {
        ShTy::Bool => "bool",
        ShTy::Float => "float",
        ShTy::Vec2 => "float2",
        ShTy::Vec3 => "float3",
        ShTy::Vec4 => "float4",
        ShTy::Mat2 => "float2x2",
        ShTy::Mat3 => "float3x3",
        ShTy::Mat4 => "float4x4",
        ShTy::Texture2D => "texture2d<float>",
    }
}

/// Executable packed Metal type name.
pub fn metal_packed_type_str(t: ShTy) -> (r: &'static str)
    ensures
        r@ == metal_packed_type_text(t),
{
    match t {
        ShTy::Bool => "bool",
        ShTy::Float => "float",
        ShTy::Vec2 => "packed_float2",
        ShTy::Vec3 => "packed_float3",
        ShTy::Vec4 => "packed_float4",
        ShTy::Mat2 => "packed_float2x2",
        ShTy::Mat3 => "packed_float3x3",
        ShTy::Mat4 => "float4x4",
        ShTy::Texture2D => "texture2d<float>",
    }
}

/// The per-target, per-stage compile context: which backend and stage are
/// being generated, the fixed argument plumbing every generated function
/// carries, the lexical scope stack, the dependency worklist, the
/// already-emitted set, and the auto-promoted varyings.
pub struct SlCx {
    pub target: SlTarget,
    pub backend: Backend,
    pub defargs_fn: String,
    pub defargs_call: String,
    pub call_prefix: String,
    pub scope: Vec<crate::ir::ShFnArg>,
    pub fn_deps: Vec<String>,
    pub fn_done: Vec<String>,
    pub auto_vary: Vec<ShVar>,
}

/// Ghost environment of one compile: the catalog and the fixed per-target
/// data that never changes during emission.
pub ghost struct GenEnv {
    pub vars: Seq<ShVar>,
    pub consts: Seq<crate::ir::ShConstV>,
    pub fns: Seq<crate::ir::ShFnDefV>,
    pub backend: Backend,
    pub target: SlTarget,
    pub prefix: Seq<char>,
    pub defargs_fn: Seq<char>,
    pub defargs_call: Seq<char>,
}

/// Ghost mutable state of one compile: the scope stack, the dependency
/// worklist and the auto-promoted varyings.
#[verifier::ext_equal]
pub ghost struct GenState {
    pub scope: Seq<crate::ir::ShFnArgV>,
    pub fn_deps: Seq<Seq<char>>,
    pub auto_vary: Seq<ShVar>,
}

pub open spec fn deps_view(s: Seq<String>) -> Seq<Seq<char>> {
    s.map_values(|x: String| x@)
}

pub open spec fn env_of(sg: crate::catalog::ShaderGen, cx: SlCx) -> GenEnv {
    GenEnv {
        vars: sg.vars@,
        consts: crate::ir::consts_view(sg.consts@),
        fns: crate::ir::fns_view(sg.fns@),
        backend: cx.backend,
        target: cx.target,
        prefix: cx.call_prefix@,
        defargs_fn: cx.defargs_fn@,
        defargs_call: cx.defargs_call@,
    }
}

pub open spec fn st_of(cx: SlCx) -> GenState {
    GenState {
        scope: crate::ir::args_view(cx.scope@),
        fn_deps: deps_view(cx.fn_deps@),
        auto_vary: cx.auto_vary@,
    }
}

/// The context fields that emission never changes.
pub open spec fn cx_fixed(a: SlCx, b: SlCx) -> bool {
    &&& b.target == a.target
    &&& b.backend == a.backend
    &&& b.defargs_fn@ == a.defargs_fn@
    &&& b.defargs_call@ == a.defargs_call@
    &&& b.call_prefix@ == a.call_prefix@
    &&& b.fn_done@ == a.fn_done@
}

/// Whether an auto-promoted varying of this name was already recorded.
pub open spec fn auto_vary_has(av: Seq<ShVar>, n: Seq<char>) -> bool {
    exists|i: int| 0 <= i < av.len() && av[i].name@ == n
}

/// The source token a backend uses for one catalog variable in one stage.
/// Geometry and Instance reads from the pixel stage are redirected to the
/// varying struct: such a value cannot otherwise exist past the vertex stage.
pub open spec fn map_var_text(bk: Backend, tgt: SlTarget, v: ShVar) -> Seq<char> {
    match v.store {
        ShVarStore::Uniform => match bk {
            Backend::Hlsl => v.name@,
            Backend::Metal => metal_type_text(v.ty) + "(_uni_dr."@ + v.name@ + ")"@,
        },
        ShVarStore::UniformVw => match bk {
            Backend::Hlsl => v.name@,
            Backend::Metal => metal_type_text(v.ty) + "(_uni_vw."@ + v.name@ + ")"@,
        },
        ShVarStore::UniformCx => match bk {
            Backend::Hlsl => v.name@,
            Backend::Metal => metal_type_text(v.ty) + "(_uni_cx."@ + v.name@ + ")"@,
        },
        ShVarStore::Instance => if tgt == SlTarget::Pixel {
            "_vary."@ + v.name@
        } else {
            match bk {
                Backend::Hlsl => "_inst."@ + v.name@,
                Backend::Metal => metal_type_text(v.ty) + "(_inst."@ + v.name@ + ")"@,
            }
        },
        ShVarStore::Geometry => if tgt == SlTarget::Pixel {
            "_vary."@ + v.name@
        } else {
            match bk {
                Backend::Hlsl => "_geom."@ + v.name@,
                Backend::Metal => metal_type_text(v.ty) + "(_geom."@ + v.name@ + ")"@,
            }
        },
        ShVarStore::Texture => match bk {
            Backend::Hlsl => v.name@,
            Backend::Metal => "_tex."@ + v.name@,
        },
        ShVarStore::Local => "_loc."@ + v.name@,
        ShVarStore::Varying => "_vary."@ + v.name@,
    }
}

/// How one variable reference extends the auto-promoted varying list: a
/// Geometry or Instance variable read from the pixel stage is recorded once.
pub open spec fn map_var_autos(tgt: SlTarget, v: ShVar, av: Seq<ShVar>) -> Seq<ShVar> {
    if (v.store == ShVarStore::Geometry || v.store == ShVarStore::Instance) && tgt
        == SlTarget::Pixel && !auto_vary_has(av, v.name@) {
        av.push(v)
    } else {
        av
    }
}

/// The texture-sampling rewrite of each backend.
pub open spec fn sample2d_text(bk: Backend, base: Seq<char>, coord: Seq<char>) -> Seq<char> {
    match bk {
        Backend::Hlsl => base + ".Sample(DefaultTextureSampler,"@ + coord + ")"@,
        Backend::Metal => base + ".sample(sampler(mag_filter::linear,min_filter::linear),"@ + coord
            + ")"@,
    }
}

/// The built-in calls whose spelling every backend shares.
pub open spec fn is_common_builtin(n: Seq<char>) -> bool {
    ||| n == "sin"@
    ||| n == "cos"@
    ||| n == "tan"@
    ||| n == "asin"@
    ||| n == "acos"@
    ||| n == "atan"@
    ||| n == "pow"@
    ||| n == "exp"@
    ||| n == "log"@
    ||| n == "exp2"@
    ||| n == "log2"@
    ||| n == "sqrt"@
    ||| n == "abs"@
    ||| n == "sign"@
    ||| n == "floor"@
    ||| n == "ceil"@
    ||| n == "fract"@
    ||| n == "min"@
    ||| n == "max"@
    ||| n == "clamp"@
    ||| n == "mix"@
    ||| n == "step"@
    ||| n == "smoothstep"@
    ||| n == "dot"@
    ||| n == "cross"@
    ||| n == "normalize"@
    ||| n == "length"@
    ||| n == "distance"@
    ||| n == "reflect"@
    ||| n == "dfdx"@
    ||| n == "dfdy"@
}

/// How one backend maps one built-in call, given the already-emitted
/// arguments. Everything outside the tables is `Unhandled`.
pub open spec fn map_call_spec(bk: Backend, name: Seq<char>, args: Seq<SlV>) -> MapCallResultV {
    if name == "sample2d"@ {
        if args.len() >= 2 {
            MapCallResultV::Rewrite(sample2d_text(bk, args[0].sl, args[1].sl), ShTy::Vec4)
        } else {
            MapCallResultV::Unhandled
        }
    } else if name == "color"@ {
        if args.len() >= 1 {
            match color_text(args[0].sl) {
                Some(t) => MapCallResultV::Rewrite(t, ShTy::Vec4),
                None => MapCallResultV::Unhandled,
            }
        } else {
            MapCallResultV::Unhandled
        }
    } else if name == "vec2"@ {
        MapCallResultV::Rename("float2"@)
    } else if name == "vec3"@ {
        MapCallResultV::Rename("float3"@)
    } else if name == "vec4"@ {
        MapCallResultV::Rename("float4"@)
    } else if name == "mat2"@ {
        MapCallResultV::Rename("float2x2"@)
    } else if name == "mat3"@ {
        MapCallResultV::Rename("float3x3"@)
    } else if name == "mat4"@ {
        MapCallResultV::Rename("float4x4"@)
    } else if bk == Backend::Hlsl && name == "mix"@ {
        MapCallResultV::Rename("lerp"@)
    } else if bk == Backend::Hlsl && name == "dfdx"@ {
        MapCallResultV::Rename("ddx"@)
    } else if bk == Backend::Hlsl && name == "dfdy"@ {
        MapCallResultV::Rename("ddy"@)
    } else if bk == Backend::Hlsl && name == "atan"@ {
        MapCallResultV::Rename("atan2"@)
    } else if bk == Backend::Hlsl && name == "fract"@ {
        MapCallResultV::Rename("frac"@)
    } else if is_common_builtin(name) {
        MapCallResultV::Rename(name)
    } else {
        MapCallResultV::Unhandled
    }
}

/// The abstract result type of a built-in call kept by name: constructors
/// have their own type, reductions collapse to scalars, and everything else
/// has the type of its first argument.
pub open spec fn builtin_ret_ty_spec(name: Seq<char>, args: Seq<SlV>) -> Option<ShTy> {
    if name == "vec2"@ {
        Some(ShTy::Vec2)
    } else if name == "vec3"@ {
        Some(ShTy::Vec3)
    } else if name == "vec4"@ {
        Some(ShTy::Vec4)
    } else if name == "mat2"@ {
        Some(ShTy::Mat2)
    } else if name == "mat3"@ {
        Some(ShTy::Mat3)
    } else if name == "mat4"@ {
        Some(ShTy::Mat4)
    } else if name == "dot"@ || name == "length"@ || name == "distance"@ {
        Some(ShTy::Float)
    } else if name == "cross"@ {
        Some(ShTy::Vec3)
    } else if args.len() >= 1 {
        Some(args[0].ty)
    } else {
        None
    }
}

/// The multiply text: HLSL spells matrix multiplication `mul(l,r)`, Metal
/// keeps the operator.
pub open spec fn mat_mul_text(bk: Backend, left: Seq<char>, right: Seq<char>) -> Seq<char> {
    match bk {
        Backend::Hlsl => "mul("@ + left + ","@ + right + ")"@,
        Backend::Metal => "("@ + left + "*"@ + right + ")"@,
    }
}

/// Whether a name is recorded in the auto-promoted varying list.
pub fn auto_vary_contains(av: &Vec<ShVar>, name: &str) -> (r: bool)
    ensures
        r == auto_vary_has(av@, name@),
{
    let mut i: usize = 0;
    while i < av.len()
        invariant
            i <= av@.len(),
            forall|j: int| 0 <= j < i ==> av@[j].name@ != name@,
        decreases av@.len() - i,
    {
        if crate::types::str_eq(av[i].name.as_str(), name) {
            return true;
        }
        i = i + 1;
    }
    false
}

impl SlCx {
    /// The backend's spelling of an abstract type.
    pub fn map_type(&self, ty: ShTy) -> (r: String)
        ensures
            r@ == map_type_text(self.backend, ty),
    {
        match self.backend {
            Backend::Hlsl => hlsl_type_str(ty).to_string(),
            Backend::Metal => metal_type_str(ty).to_string(),
        }
    }

    /// The backend's multiply text for matrix operands.
    pub fn mat_mul(&self, left: &str, right: &str) -> (r: String)
        ensures
            r@ == mat_mul_text(self.backend, left@, right@),
    {
        let mut out = String::new();
        match self.backend {
            Backend::Hlsl => {
                out.append("mul(");
                out.append(left);
                out.append(",");
                out.append(right);
                out.append(")");
            },
            Backend::Metal => {
                out.append("(");
                out.append(left);
                out.append("*");
                out.append(right);
                out.append(")");
            },
        }
        out
    }

    /// The backend's mapping of one built-in call.
    pub fn map_call(&self, name: &str, args: &Vec<Sl>) -> (r: MapCallResult)
        ensures
            map_call_result_view(r) == map_call_spec(self.backend, name@, sls_view(args@)),
    {
        proof {
            assert(sls_view(args@).len() == args@.len());
            if args@.len() >= 1 {
                assert(sls_view(args@)[0] == sl_view(args@[0]));
            }
            if args@.len() >= 2 {
                assert(sls_view(args@)[1] == sl_view(args@[1]));
            }
        }
        if crate::types::str_eq(name, "sample2d") {
            if args.len() >= 2 {
                let mut out = args[0].sl.clone();
                match self.backend {
                    Backend::Hlsl => {
                        out.append(".Sample(DefaultTextureSampler,");
                    },
                    Backend::Metal => {
                        out.append(".sample(sampler(mag_filter::linear,min_filter::linear),");
                    },
                }
                out.append(args[1].sl.as_str());
                out.append(")");
                return MapCallResult::Rewrite(out, ShTy::Vec4);
            }
            return MapCallResult::Unhandled;
        }
        if crate::types::str_eq(name, "color") {
            if args.len() >= 1 {
                match color_rewrite(args[0].sl.as_str()) {
                    Some(t) => {
                        return MapCallResult::Rewrite(t, ShTy::Vec4);
                    },
                    None => {
                        return MapCallResult::Unhandled;
                    },
                }
            }
            return MapCallResult::Unhandled;
        }
        if crate::types::str_eq(name, "vec2") {
            return MapCallResult::Rename("float2".to_string());
        }
        if crate::types::str_eq(name, "vec3") {
            return MapCallResult::Rename("float3".to_string());
        }
        if crate::types::str_eq(name, "vec4") {
            return MapCallResult::Rename("float4".to_string());
        }
        if crate::types::str_eq(name, "mat2") {
            return MapCallResult::Rename("float2x2".to_string());
        }
        if crate::types::str_eq(name, "mat3") {
            return MapCallResult::Rename("float3x3".to_string());
        }
        if crate::types::str_eq(name, "mat4") {
            return MapCallResult::Rename("float4x4".to_string());
        }
        if matches!(self.backend, Backend::Hlsl) {
            if crate::types::str_eq(name, "mix") {
                return MapCallResult::Rename("lerp".to_string());
            }
            if crate::types::str_eq(name, "dfdx") {
                return MapCallResult::Rename("ddx".to_string());
            }
            if crate::types::str_eq(name, "dfdy") {
                return MapCallResult::Rename("ddy".to_string());
            }
            if crate::types::str_eq(name, "atan") {
                return MapCallResult::Rename("atan2".to_string());
            }
            if crate::types::str_eq(name, "fract") {
                return MapCallResult::Rename("frac".to_string());
            }
        }
        if Self::common_builtin(name) {
            return MapCallResult::Rename(name.to_string());
        }
        MapCallResult::Unhandled
    }

    /// Whether a call name is in the shared built-in table.
    pub fn common_builtin(name: &str) -> (r: bool)
        ensures
            r == is_common_builtin(name@),
    {
        crate::types::str_eq(name, "sin") || crate::types::str_eq(name, "cos")
            || crate::types::str_eq(name, "tan") || crate::types::str_eq(name, "asin")
            || crate::types::str_eq(name, "acos") || crate::types::str_eq(name, "atan")
            || crate::types::str_eq(name, "pow") || crate::types::str_eq(name, "exp")
            || crate::types::str_eq(name, "log") || crate::types::str_eq(name, "exp2")
            || crate::types::str_eq(name, "log2") || crate::types::str_eq(name, "sqrt")
            || crate::types::str_eq(name, "abs") || crate::types::str_eq(name, "sign")
            || crate::types::str_eq(name, "floor") || crate::types::str_eq(name, "ceil")
            || crate::types::str_eq(name, "fract") || crate::types::str_eq(name, "min")
            || crate::types::str_eq(name, "max") || crate::types::str_eq(name, "clamp")
            || crate::types::str_eq(name, "mix") || crate::types::str_eq(name, "step")
            || crate::types::str_eq(name, "smoothstep") || crate::types::str_eq(name, "dot")
            || crate::types::str_eq(name, "cross") || crate::types::str_eq(name, "normalize")
            || crate::types::str_eq(name, "length") || crate::types::str_eq(name, "distance")
            || crate::types::str_eq(name, "reflect") || crate::types::str_eq(name, "dfdx")
            || crate::types::str_eq(name, "dfdy")
    }

    /// The source token of one catalog variable, applying the pixel-stage
    /// redirect and recording the promotion.
    pub fn map_var(&mut self, var: &ShVar) -> (r: String)
        ensures
            cx_fixed(*old(self), *final(self)),
            final(self).scope@ == old(self).scope@,
            final(self).fn_deps@ == old(self).fn_deps@,
            r@ == map_var_text(old(self).backend, old(self).target, *var),
            final(self).auto_vary@ == map_var_autos(old(self).target, *var, old(self).auto_vary@),
    {
        let is_pixel = matches!(self.target, SlTarget::Pixel);
        match var.store {
            ShVarStore::Uniform => match self.backend {
                Backend::Hlsl => var.name.clone(),
                Backend::Metal => {
                    let mut out = metal_type_str(var.ty).to_string();
                    out.append("(_uni_dr.");
                    out.append(var.name.as_str());
                    out.append(")");
                    out
                },
            },
            ShVarStore::UniformVw => match self.backend {
                Backend::Hlsl => var.name.clone(),
                Backend::Metal => {
                    let mut out = metal_type_str(var.ty).to_string();
                    out.append("(_uni_vw.");
                    out.append(var.name.as_str());
                    out.append(")");
                    out
                },
            },
            ShVarStore::UniformCx => match self.backend {
                Backend::Hlsl => var.name.clone(),
                Backend::Metal => {
                    let mut out = metal_type_str(var.ty).to_string();
                    out.append("(_uni_cx.");
                    out.append(var.name.as_str());
                    out.append(")");
                    out
                },
            },
            ShVarStore::Instance => {
                if is_pixel {
                    if !auto_vary_contains(&self.auto_vary, var.name.as_str()) {
                        self.auto_vary.push(var.clone());
                    }
                    let mut out = "_vary.".to_string();
                    out.append(var.name.as_str());
                    out
                } else {
                    match self.backend {
                        Backend::Hlsl => {
                            let mut out = "_inst.".to_string();
                            out.append(var.name.as_str());
                            out
                        },
                        Backend::Metal => {
                            let mut out = metal_type_str(var.ty).to_string();
                            out.append("(_inst.");
                            out.append(var.name.as_str());
                            out.append(")");
                            out
                        },
                    }
                }
            },
            ShVarStore::Geometry => {
                if is_pixel {
                    if !auto_vary_contains(&self.auto_vary, var.name.as_str()) {
                        self.auto_vary.push(var.clone());
                    }
                    let mut out = "_vary.".to_string();
                    out.append(var.name.as_str());
                    out
                } else {
                    match self.backend {
                        Backend::Hlsl => {
                            let mut out = "_geom.".to_string();
                            out.append(var.name.as_str());
                            out
                        },
                        Backend::Metal => {
                            let mut out = metal_type_str(var.ty).to_string();
                            out.append("(_geom.");
                            out.append(var.name.as_str());
                            out.append(")");
                            out
                        },
                    }
                }
            },
            ShVarStore::Texture => match self.backend {
                Backend::Hlsl => var.name.clone(),
                Backend::Metal => {
                    let mut out = "_tex.".to_string();
                    out.append(var.name.as_str());
                    out
                },
            },
            ShVarStore::Local => {
                let mut out = "_loc.".to_string();
                out.append(var.name.as_str());
                out
            },
            ShVarStore::Varying => {
                let mut out = "_vary.".to_string();
                out.append(var.name.as_str());
                out
            },
        }
    }
}

/// Ghost result of emitting one expression.
#[verifier::ext_equal]
pub ghost struct EmitOk {
    pub text: Seq<char>,
    pub ty: ShTy,
    pub st: GenState,
}

/// Ghost compile error: message and offending construct.
#[verifier::ext_equal]
pub ghost struct EmitErr {
    pub message: Seq<char>,
    pub construct: Seq<char>,
}

/// Ghost result of emitting a call's argument list.
#[verifier::ext_equal]
pub ghost struct ArgsOk {
    pub args: Seq<SlV>,
    pub st: GenState,
}

/// Ghost result of emitting statements.
#[verifier::ext_equal]
pub ghost struct BlockOk {
    pub text: Seq<char>,
    pub st: GenState,
}

/// The most recent binding of a name on the scope stack.
pub open spec fn scope_ty(scope: Seq<crate::ir::ShFnArgV>, n: Seq<char>) -> Option<ShTy>
    decreases scope.len(),
{
    if scope.len() == 0 {
        None
    } else if scope.last().name == n {
        Some(scope.last().ty)
    } else {
        scope_ty(scope.drop_last(), n)
    }
}

/// The constant of `cs` named `n`; meaningful when names are distinct.
pub open spec fn const_named(cs: Seq<crate::ir::ShConstV>, n: Seq<char>) -> crate::ir::ShConstV {
    cs[choose|i: int| 0 <= i < cs.len() && cs[i].name == n]
}

/// The function definition of `fs` named `n`; meaningful when names are
/// distinct.
pub open spec fn fn_named(fs: Seq<crate::ir::ShFnDefV>, n: Seq<char>) -> crate::ir::ShFnDefV {
    fs[choose|i: int| 0 <= i < fs.len() && fs[i].name == n]
}

pub open spec fn is_mat(t: ShTy) -> bool {
    t == ShTy::Mat2 || t == ShTy::Mat3 || t == ShTy::Mat4
}

pub open spec fn is_num(t: ShTy) -> bool {
    t == ShTy::Float || t == ShTy::Vec2 || t == ShTy::Vec3 || t == ShTy::Vec4 || is_mat(t)
}

pub open spec fn is_cmp(op: crate::ir::BinOp) -> bool {
    op == crate::ir::BinOp::Lt || op == crate::ir::BinOp::Gt || op == crate::ir::BinOp::Le || op
        == crate::ir::BinOp::Ge || op == crate::ir::BinOp::EqEq || op == crate::ir::BinOp::Ne
}

/// The abstract type of a binary operation, or nothing when the operand
/// types do not combine. Comparisons take scalars; arithmetic takes equal
/// types, a scalar broadcast on either side, or a matrix-vector multiply.
pub open spec fn bin_ty(op: crate::ir::BinOp, lt: ShTy, rt: ShTy) -> Option<ShTy> {
    if is_cmp(op) {
        if lt == ShTy::Float && rt == ShTy::Float {
            Some(ShTy::Bool)
        } else {
            None
        }
    } else if !is_num(lt) || !is_num(rt) {
        None
    } else if lt == rt {
        Some(lt)
    } else if lt == ShTy::Float {
        Some(rt)
    } else if rt == ShTy::Float {
        Some(lt)
    } else if op == crate::ir::BinOp::Mul && lt == ShTy::Mat2 && rt == ShTy::Vec2 {
        Some(ShTy::Vec2)
    } else if op == crate::ir::BinOp::Mul && lt == ShTy::Mat3 && rt == ShTy::Vec3 {
        Some(ShTy::Vec3)
    } else if op == crate::ir::BinOp::Mul && lt == ShTy::Mat4 && rt == ShTy::Vec4 {
        Some(ShTy::Vec4)
    } else if op == crate::ir::BinOp::Mul && lt == ShTy::Vec2 && rt == ShTy::Mat2 {
        Some(ShTy::Vec2)
    } else if op == crate::ir::BinOp::Mul && lt == ShTy::Vec3 && rt == ShTy::Mat3 {
        Some(ShTy::Vec3)
    } else if op == crate::ir::BinOp::Mul && lt == ShTy::Vec4 && rt == ShTy::Mat4 {
        Some(ShTy::Vec4)
    } else {
        None
    }
}

pub open spec fn is_swizzle_char(c: char) -> bool {
    c == 'x' || c == 'y' || c == 'z' || c == 'w' || c == 'r' || c == 'g' || c == 'b' || c == 'a'
}

pub open spec fn all_swizzle_chars(s: Seq<char>) -> bool {
    forall|i: int| 0 <= i < s.len() ==> is_swizzle_char(s[i])
}

/// The abstract type of a member access: a swizzle of a vector, sized by the
/// member's length. Anything else is refused.
pub open spec fn swizzle_ty(base: ShTy, m: Seq<char>) -> Option<ShTy> {
    if (base == ShTy::Vec2 || base == ShTy::Vec3 || base == ShTy::Vec4) && all_swizzle_chars(m) {
        if m.len() == 1 {
            Some(ShTy::Float)
        } else if m.len() == 2 {
            Some(ShTy::Vec2)
        } else if m.len() == 3 {
            Some(ShTy::Vec3)
        } else if m.len() == 4 {
            Some(ShTy::Vec4)
        } else {
            None
        }
    } else {
        None
    }
}

/// The comma-joined text of an emitted argument list.
pub open spec fn join_args(args: Seq<SlV>) -> Seq<char>
    decreases args.len(),
{
    if args.len() == 0 {
        Seq::empty()
    } else if args.len() == 1 {
        args[0].sl
    } else {
        join_args(args.drop_last()) + ","@ + args.last().sl
    }
}

/// The separator between explicit arguments and the fixed argument plumbing.
pub open spec fn call_sep(args: Seq<SlV>, defargs: Seq<char>) -> Seq<char> {
    if args.len() > 0 && defargs.len() > 0 {
        ","@
    } else {
        Seq::<char>::empty()
    }
}

pub open spec fn deps_contains(deps: Seq<Seq<char>>, n: Seq<char>) -> bool {
    exists|i: int| 0 <= i < deps.len() && deps[i] == n
}

/// Recording one callee on the dependency worklist, once.
pub open spec fn deps_add(deps: Seq<Seq<char>>, n: Seq<char>) -> Seq<Seq<char>> {
    if deps_contains(deps, n) {
        deps
    } else {
        deps.push(n)
    }
}

/// What one variable reference emits: the most recent scope binding wins,
/// then the catalog (with the pixel-stage varying redirect), then a named
/// constant. Constant-stage code may not read catalog variables, and an
/// unknown name is an error.
pub open spec fn sp_var(name: Seq<char>, env: GenEnv, st: GenState) -> Result<EmitOk, EmitErr> {
    match scope_ty(st.scope, name) {
        Some(ty) => Ok(EmitOk { text: name, ty, st }),
        None => if crate::catalog::has_var(env.vars, name) {
            if env.target == SlTarget::Constant {
                Err(
                    EmitErr {
                        message: "variable reference in constant expression"@,
                        construct: name,
                    },
                )
            } else {
                let v = crate::catalog::var_named(env.vars, name);
                Ok(
                    EmitOk {
                        text: map_var_text(env.backend, env.target, v),
                        ty: v.ty,
                        st: GenState {
                            auto_vary: map_var_autos(env.target, v, st.auto_vary),
                            ..st
                        },
                    },
                )
            }
        } else if crate::catalog::has_const_v(env.consts, name) {
            Ok(EmitOk { text: name, ty: const_named(env.consts, name).ty, st })
        } else {
            Err(EmitErr { message: "undefined variable"@, construct: name })
        },
    }
}

/// What one call emits once its arguments are emitted: a catalog function
/// call carries the fixed argument plumbing and is recorded as a dependency;
/// everything else must be mapped by the backend's built-in table, and an
/// unmapped built-in is a hard error naming the call.
pub open spec fn sp_call(name: Seq<char>, args: Seq<SlV>, env: GenEnv, st: GenState) -> Result<
    EmitOk,
    EmitErr,
> {
    if crate::catalog::has_fn_v(env.fns, name) {
        if env.target == SlTarget::Constant {
            Err(EmitErr { message: "function call in constant expression"@, construct: name })
        } else {
            let f = fn_named(env.fns, name);
            Ok(
                EmitOk {
                    text: env.prefix + name + "("@ + join_args(args) + call_sep(
                        args,
                        env.defargs_call,
                    ) + env.defargs_call + ")"@,
                    ty: f.ret,
                    st: GenState { fn_deps: deps_add(st.fn_deps, name), ..st },
                },
            )
        }
    } else {
        match map_call_spec(env.backend, name, args) {
            MapCallResultV::Rename(n2) => match builtin_ret_ty_spec(name, args) {
                Some(ty) => Ok(
                    EmitOk { text: n2 + "("@ + join_args(args) + ")"@, ty, st },
                ),
                None => Err(EmitErr { message: "unmapped built-in call"@, construct: name }),
            },
            MapCallResultV::Rewrite(t, ty) => Ok(EmitOk { text: t, ty, st }),
            MapCallResultV::Unhandled => Err(
                EmitErr { message: "unmapped built-in call"@, construct: name },
            ),
        }
    }
}

/// What one expression emits, threading the compile state left to right.
pub open spec fn sp_expr(e: crate::ir::ExprV, env: GenEnv, st: GenState) -> Result<EmitOk, EmitErr>
    decreases e,
{
    match e {
        crate::ir::ExprV::Lit { text } => Ok(EmitOk { text, ty: ShTy::Float, st }),
        crate::ir::ExprV::Var { name } => sp_var(name, env, st),
        crate::ir::ExprV::Unary { un_op, expr } => match sp_expr(*expr, env, st) {
            Ok(o) => Ok(
                EmitOk { text: "("@ + un_op_text(un_op) + o.text + ")"@, ty: o.ty, st: o.st },
            ),
            Err(e2) => Err(e2),
        },
        crate::ir::ExprV::Binary { bin_op, left, right } => match sp_expr(*left, env, st) {
            Ok(lo) => match sp_expr(*right, env, lo.st) {
                Ok(ro) => match bin_ty(bin_op, lo.ty, ro.ty) {
                    Some(ty) => Ok(
                        EmitOk {
                            text: if bin_op == crate::ir::BinOp::Mul && (is_mat(lo.ty) || is_mat(
                                ro.ty,
                            )) {
                                mat_mul_text(env.backend, lo.text, ro.text)
                            } else {
                                "("@ + lo.text + bin_op_text(bin_op) + ro.text + ")"@
                            },
                            ty,
                            st: ro.st,
                        },
                    ),
                    None => Err(
                        EmitErr {
                            message: "operand types do not match"@,
                            construct: bin_op_text(bin_op),
                        },
                    ),
                },
                Err(e2) => Err(e2),
            },
            Err(e2) => Err(e2),
        },
        crate::ir::ExprV::Call { name, args } => match sp_args(args, env, st) {
            Ok(ao) => sp_call(name, ao.args, env, ao.st),
            Err(e2) => Err(e2),
        },
        crate::ir::ExprV::Field { base, member } => match sp_expr(*base, env, st) {
            Ok(o) => match swizzle_ty(o.ty, member) {
                Some(ty) => Ok(EmitOk { text: o.text + "."@ + member, ty, st: o.st }),
                None => Err(
                    EmitErr { message: "unknown field or swizzle"@, construct: member },
                ),
            },
            Err(e2) => Err(e2),
        },
    }
}

/// What a call's argument list emits, left to right.
pub open spec fn sp_args(args: Seq<crate::ir::ExprV>, env: GenEnv, st: GenState) -> Result<
    ArgsOk,
    EmitErr,
>
    decreases args,
{
    if args.len() == 0 {
        Ok(ArgsOk { args: Seq::empty(), st })
    } else {
        match sp_args(args.drop_last(), env, st) {
            Ok(ao) => match sp_expr(args.last(), env, ao.st) {
                Ok(o) => Ok(
                    ArgsOk { args: ao.args.push(SlV { sl: o.text, ty: o.ty }), st: o.st },
                ),
                Err(e2) => Err(e2),
            },
            Err(e2) => Err(e2),
        }
    }
}

/// What one statement emits. A `let` declares a new scope entry; an `if`
/// restores the scope it entered with, keeping promotions and dependencies
/// collected inside the branches.
pub open spec fn sp_stmt(s: crate::ir::StmtV, env: GenEnv, st: GenState) -> Result<
    BlockOk,
    EmitErr,
>
    decreases s,
{
    match s {
        crate::ir::StmtV::Let { name, ty, init } => match sp_expr(init, env, st) {
            Ok(o) => if scope_ty(o.st.scope, name) is Some {
                Err(EmitErr { message: "duplicate local declaration"@, construct: name })
            } else if o.ty != ty {
                Err(EmitErr { message: "declaration type mismatch"@, construct: name })
            } else {
                Ok(
                    BlockOk {
                        text: "  "@ + map_type_text(env.backend, ty) + " "@ + name + " = "@ + o.text
                            + ";\n"@,
                        st: GenState {
                            scope: o.st.scope.push(crate::ir::ShFnArgV { name, ty }),
                            ..o.st
                        },
                    },
                )
            },
            Err(e2) => Err(e2),
        },
        crate::ir::StmtV::Assign { target, value } => match sp_expr(target, env, st) {
            Ok(to) => match sp_expr(value, env, to.st) {
                Ok(vo) => if to.ty == vo.ty {
                    Ok(BlockOk { text: "  "@ + to.text + " = "@ + vo.text + ";\n"@, st: vo.st })
                } else {
                    Err(EmitErr { message: "assignment type mismatch"@, construct: "="@ })
                },
                Err(e2) => Err(e2),
            },
            Err(e2) => Err(e2),
        },
        crate::ir::StmtV::If { cond, then_branch, else_branch } => match sp_expr(cond, env, st) {
            Ok(co) => if co.ty != ShTy::Bool {
                Err(EmitErr { message: "condition is not boolean"@, construct: "if"@ })
            } else {
                match sp_stmts(then_branch, env, co.st) {
                    Ok(t1) => if else_branch.len() == 0 {
                        Ok(
                            BlockOk {
                                text: "  if("@ + co.text + "){\n"@ + t1.text + "  }\n"@,
                                st: GenState { scope: st.scope, ..t1.st },
                            },
                        )
                    } else {
                        match sp_stmts(else_branch, env, GenState { scope: st.scope, ..t1.st }) {
                            Ok(t2) => Ok(
                                BlockOk {
                                    text: "  if("@ + co.text + "){\n"@ + t1.text
                                        + "  }\n  else {\n"@ + t2.text + "  }\n"@,
                                    st: GenState { scope: st.scope, ..t2.st },
                                },
                            ),
                            Err(e2) => Err(e2),
                        }
                    },
                    Err(e2) => Err(e2),
                }
            },
            Err(e2) => Err(e2),
        },
        crate::ir::StmtV::Return { expr } => match sp_expr(expr, env, st) {
            Ok(o) => Ok(BlockOk { text: "  return "@ + o.text + ";\n"@, st: o.st }),
            Err(e2) => Err(e2),
        },
    }
}

/// What a statement list emits, in order.
pub open spec fn sp_stmts(ss: Seq<crate::ir::StmtV>, env: GenEnv, st: GenState) -> Result<
    BlockOk,
    EmitErr,
>
    decreases ss,
{
    if ss.len() == 0 {
        Ok(BlockOk { text: Seq::empty(), st })
    } else {
        match sp_stmts(ss.drop_last(), env, st) {
            Ok(b) => match sp_stmt(ss.last(), env, b.st) {
                Ok(b2) => Ok(BlockOk { text: b.text + b2.text, st: b2.st }),
                Err(e2) => Err(e2),
            },
            Err(e2) => Err(e2),
        }
    }
}

/// Executable scope lookup: the most recent binding wins.
pub fn scope_lookup(scope: &Vec<crate::ir::ShFnArg>, name: &str) -> (r: Option<ShTy>)
    ensures
        r == scope_ty(crate::ir::args_view(scope@), name@),
{
    let ghost sv = crate::ir::args_view(scope@);
    let mut i: usize = scope.len();
    proof {
        assert(sv.take(scope@.len() as int) =~= sv);
    }
    while i > 0
        invariant
            i <= scope@.len(),
            scope_ty(sv, name@) == scope_ty(sv.take(i as int), name@),
        decreases i,
    {
        proof {
            assert(sv.take(i as int).drop_last() =~= sv.take(i - 1 as int));
            assert(sv.take(i as int).last() == sv[i - 1 as int]);
            assert(sv[i - 1 as int] == crate::ir::arg_view(scope@[i - 1 as int]));
        }
        if crate::types::str_eq(scope[i - 1].name.as_str(), name) {
            return Some(scope[i - 1].ty);
        }
        i = i - 1;
    }
    proof {
        assert(sv.take(0) =~= Seq::<crate::ir::ShFnArgV>::empty());
    }
    None
}

/// Executable dependency-list membership.
pub fn deps_has(deps: &Vec<String>, name: &str) -> (r: bool)
    ensures
        r == deps_contains(deps_view(deps@), name@),
{
    let ghost dv = deps_view(deps@);
    let mut i: usize = 0;
    while i < deps.len()
        invariant
            i <= deps@.len(),
            forall|j: int| 0 <= j < i ==> deps_view(deps@)[j] != name@,
        decreases deps@.len() - i,
    {
        proof {
            assert(deps_view(deps@)[i as int] == deps@[i as int]@);
        }
        if crate::types::str_eq(deps[i].as_str(), name) {
            return true;
        }
        i = i + 1;
    }
    false
}

/// A value-equal copy of the scope stack.
pub fn clone_scope(v: &Vec<crate::ir::ShFnArg>) -> (r: Vec<crate::ir::ShFnArg>)
    ensures
        r@ == v@,
{
    let mut r: Vec<crate::ir::ShFnArg> = Vec::new();
    let mut i: usize = 0;
    while i < v.len()
        invariant
            i <= v@.len(),
            r@ == v@.take(i as int),
        decreases v@.len() - i,
    {
        r.push(v[i].clone());
        proof {
            assert(v@.take(i + 1 as int) =~= v@.take(i as int).push(v@[i as int]));
        }
        i = i + 1;
    }
    proof {
        assert(v@.take(v@.len() as int) =~= v@);
    }
    r
}

/// Executable binary type rule.
pub fn bin_ty_exec(op: crate::ir::BinOp, lt: ShTy, rt: ShTy) -> (r: Option<ShTy>)
    ensures
        r == bin_ty(op, lt, rt),
{
    let cmp = matches!(
        op,
        crate::ir::BinOp::Lt | crate::ir::BinOp::Gt | crate::ir::BinOp::Le | crate::ir::BinOp::Ge
            | crate::ir::BinOp::EqEq | crate::ir::BinOp::Ne
    );
    let lt_mat = matches!(lt, ShTy::Mat2 | ShTy::Mat3 | ShTy::Mat4);
    let rt_mat = matches!(rt, ShTy::Mat2 | ShTy::Mat3 | ShTy::Mat4);
    let lt_num = matches!(lt, ShTy::Float | ShTy::Vec2 | ShTy::Vec3 | ShTy::Vec4) || lt_mat;
    let rt_num = matches!(rt, ShTy::Float | ShTy::Vec2 | ShTy::Vec3 | ShTy::Vec4) || rt_mat;
    if cmp {
        if lt == ShTy::Float && rt == ShTy::Float {
            Some(ShTy::Bool)
        } else {
            None
        }
    } else if !lt_num || !rt_num {
        None
    } else if lt == rt {
        Some(lt)
    } else if lt == ShTy::Float {
        Some(rt)
    } else if rt == ShTy::Float {
        Some(lt)
    } else if matches!(op, crate::ir::BinOp::Mul) && lt == ShTy::Mat2 && rt == ShTy::Vec2 {
        Some(ShTy::Vec2)
    } else if matches!(op, crate::ir::BinOp::Mul) && lt == ShTy::Mat3 && rt == ShTy::Vec3 {
        Some(ShTy::Vec3)
    } else if matches!(op, crate::ir::BinOp::Mul) && lt == ShTy::Mat4 && rt == ShTy::Vec4 {
        Some(ShTy::Vec4)
    } else if matches!(op, crate::ir::BinOp::Mul) && lt == ShTy::Vec2 && rt == ShTy::Mat2 {
        Some(ShTy::Vec2)
    } else if matches!(op, crate::ir::BinOp::Mul) && lt == ShTy::Vec3 && rt == ShTy::Mat3 {
        Some(ShTy::Vec3)
    } else if matches!(op, crate::ir::BinOp::Mul) && lt == ShTy::Vec4 && rt == ShTy::Mat4 {
        Some(ShTy::Vec4)
    } else {
        None
    }
}

/// Executable swizzle character test.
pub fn swizzle_char(c: char) -> (r: bool)
    ensures
        r == is_swizzle_char(c),
{
    c == 'x' || c == 'y' || c == 'z' || c == 'w' || c == 'r' || c == 'g' || c == 'b' || c == 'a'
}

/// Executable swizzle type rule.
pub fn swizzle_ty_exec(base: ShTy, m: &str) -> (r: Option<ShTy>)
    ensures
        r == swizzle_ty(base, m@),
{
    if !matches!(base, ShTy::Vec2 | ShTy::Vec3 | ShTy::Vec4) {
        return None;
    }
    let n = m.unicode_len();
    let mut i: usize = 0;
    while i < n
        invariant
            i <= n,
            n == m@.len(),
            forall|j: int| 0 <= j < i ==> is_swizzle_char(m@[j]),
        decreases n - i,
    {
        if !swizzle_char(m.get_char(i)) {
            return None;
        }
        i = i + 1;
    }
    if n == 1 {
        Some(ShTy::Float)
    } else if n == 2 {
        Some(ShTy::Vec2)
    } else if n == 3 {
        Some(ShTy::Vec3)
    } else if n == 4 {
        Some(ShTy::Vec4)
    } else {
        None
    }
}

/// Executable built-in result type rule.
pub fn builtin_ret_ty(name: &str, args: &Vec<Sl>) -> (r: Option<ShTy>)
    ensures
        r == builtin_ret_ty_spec(name@, sls_view(args@)),
{
    proof {
        if args@.len() >= 1 {
            assert(sls_view(args@)[0] == sl_view(args@[0]));
        }
        assert(sls_view(args@).len() == args@.len());
    }
    if crate::types::str_eq(name, "vec2") {
        Some(ShTy::Vec2)
    } else if crate::types::str_eq(name, "vec3") {
        Some(ShTy::Vec3)
    } else if crate::types::str_eq(name, "vec4") {
        Some(ShTy::Vec4)
    } else if crate::types::str_eq(name, "mat2") {
        Some(ShTy::Mat2)
    } else if crate::types::str_eq(name, "mat3") {
        Some(ShTy::Mat3)
    } else if crate::types::str_eq(name, "mat4") {
        Some(ShTy::Mat4)
    } else if crate::types::str_eq(name, "dot") || crate::types::str_eq(name, "length")
        || crate::types::str_eq(name, "distance") {
        Some(ShTy::Float)
    } else if crate::types::str_eq(name, "cross") {
        Some(ShTy::Vec3)
    } else if args.len() >= 1 {
        Some(args[0].ty)
    } else {
        None
    }
}

/// The comma-joined text of an emitted argument list, executable form.
pub fn join_args_exec(args: &Vec<Sl>) -> (r: String)
    ensures
        r@ == join_args(sls_view(args@)),
{
    let mut out = String::new();
    let mut i: usize = 0;
    while i < args.len()
        invariant
            i <= args@.len(),
            out@ == join_args(sls_view(args@).take(i as int)),
        decreases args@.len() - i,
    {
        proof {
            assert(sls_view(args@).take(i + 1 as int).drop_last() =~= sls_view(args@).take(i as int));
            assert(sls_view(args@).take(i + 1 as int).last() == sls_view(args@)[i as int]);
            assert(sls_view(args@)[i as int] == sl_view(args@[i as int]));
            if i >= 1 {
                assert(sls_view(args@).take(i + 1 as int).len() >= 2);
            }
        }
        if i > 0 {
            out.append(",");
        }
        out.append(args[i].sl.as_str());
        i = i + 1;
    }
    proof {
        assert(sls_view(args@).take(args@.len() as int) =~= sls_view(args@));
    }
    out
}

/// An error propagated from a prefix of the argument list is the whole
/// list's error.
pub proof fn lemma_sp_args_err_extends(
    args: Seq<crate::ir::ExprV>,
    k: int,
    env: GenEnv,
    st: GenState,
)
    requires
        0 <= k <= args.len(),
        sp_args(args.take(k), env, st) is Err,
    ensures
        sp_args(args, env, st) == sp_args(args.take(k), env, st),
    decreases args.len(),
{
    if args.len() > k {
        assert(args.drop_last().take(k) =~= args.take(k));
        lemma_sp_args_err_extends(args.drop_last(), k, env, st);
    } else {
        assert(args.take(k) =~= args);
    }
}

/// An error propagated from a prefix of a statement list is the whole
/// list's error.
pub proof fn lemma_sp_stmts_err_extends(
    ss: Seq<crate::ir::StmtV>,
    k: int,
    env: GenEnv,
    st: GenState,
)
    requires
        0 <= k <= ss.len(),
        sp_stmts(ss.take(k), env, st) is Err,
    ensures
        sp_stmts(ss, env, st) == sp_stmts(ss.take(k), env, st),
    decreases ss.len(),
{
    if ss.len() > k {
        assert(ss.drop_last().take(k) =~= ss.take(k));
        lemma_sp_stmts_err_extends(ss.drop_last(), k, env, st);
    } else {
        assert(ss.take(k) =~= ss);
    }
}

/// Emits one expression for the context's backend and stage: the returned
/// text and type, and the context's promotions, dependencies and scope, are
/// exactly what the emission model says.
#[verifier::rlimit(60)]
pub fn emit_expr(e: &crate::ir::Expr, sg: &crate::catalog::ShaderGen, cx: &mut SlCx) -> (r: Result<
    Sl,
    ShaderCompileError,
>)
    requires
        sg.wf(),
    ensures
        cx_fixed(*old(cx), *final(cx)),
        match sp_expr(crate::ir::expr_view(*e), env_of(*sg, *old(cx)), st_of(*old(cx))) {
            Ok(o) => r matches Ok(sl) && sl.sl@ == o.text && sl.ty == o.ty && st_of(*final(cx))
                == o.st,
            Err(er) => r matches Err(e2) && e2.message@ == er.message && e2.construct@
                == er.construct,
        },
    decreases *e,
{
    let ghost env = env_of(*sg, *old(cx));
    let ghost st0 = st_of(*old(cx));
    match e {
        crate::ir::Expr::Lit { text } => Ok(Sl { sl: text.clone(), ty: ShTy::Float }),
        crate::ir::Expr::Var { name } => {
            match scope_lookup(&cx.scope, name.as_str()) {
                Some(ty) => Ok(Sl { sl: name.clone(), ty }),
                None => {
                    match crate::catalog::ShaderGen::find_var(&sg.vars, name.as_str()) {
                        Some(i) => {
                            if matches!(cx.target, SlTarget::Constant) {
                                Err(
                                    ShaderCompileError {
                                        message: "variable reference in constant expression"
                                            .to_string(),
                                        construct: name.clone(),
                                    },
                                )
                            } else {
                                proof {
                                    assert(crate::catalog::var_named(sg.vars@, name@)
                                        == sg.vars@[i as int]);
                                }
                                let v = sg.vars[i].clone();
                                let text = cx.map_var(&v);
                                proof {
                                    assert(st_of(*cx) =~= (GenState {
                                        auto_vary: map_var_autos(env.target, v, st0.auto_vary),
                                        ..st0
                                    }));
                                }
                                Ok(Sl { sl: text, ty: v.ty })
                            }
                        },
                        None => {
                            match crate::catalog::ShaderGen::find_const(&sg.consts, name.as_str()) {
                                Some(i) => {
                                    proof {
                                        assert(crate::ir::consts_view(sg.consts@)[i as int]
                                            == crate::catalog::const_view_of(sg.consts@[i as int]));
                                        assert(const_named(
                                            crate::ir::consts_view(sg.consts@),
                                            name@,
                                        ) == crate::ir::consts_view(sg.consts@)[i as int]);
                                    }
                                    Ok(Sl { sl: name.clone(), ty: sg.consts[i].ty })
                                },
                                None => Err(
                                    ShaderCompileError {
                                        message: "undefined variable".to_string(),
                                        construct: name.clone(),
                                    },
                                ),
                            }
                        },
                    }
                },
            }
        },
        crate::ir::Expr::Unary { un_op, expr } => {
            match emit_expr(expr, sg, cx) {
                Ok(o) => {
                    let mut out = "(".to_string();
                    out.append(un_op_str(*un_op));
                    out.append(o.sl.as_str());
                    out.append(")");
                    Ok(Sl { sl: out, ty: o.ty })
                },
                Err(e2) => Err(e2),
            }
        },
        crate::ir::Expr::Binary { bin_op, left, right } => {
            let lo = match emit_expr(left, sg, cx) {
                Ok(o) => o,
                Err(e2) => {
                    return Err(e2);
                },
            };
            proof {
                assert(env_of(*sg, *cx) =~= env);
            }
            let ro = match emit_expr(right, sg, cx) {
                Ok(o) => o,
                Err(e2) => {
                    return Err(e2);
                },
            };
            match bin_ty_exec(*bin_op, lo.ty, ro.ty) {
                Some(ty) => {
                    let lt_mat = matches!(lo.ty, ShTy::Mat2 | ShTy::Mat3 | ShTy::Mat4);
                    let rt_mat = matches!(ro.ty, ShTy::Mat2 | ShTy::Mat3 | ShTy::Mat4);
                    if matches!(*bin_op, crate::ir::BinOp::Mul) && (lt_mat || rt_mat) {
                        let out = cx.mat_mul(lo.sl.as_str(), ro.sl.as_str());
                        Ok(Sl { sl: out, ty })
                    } else {
                        let mut out = "(".to_string();
                        out.append(lo.sl.as_str());
                        out.append(bin_op_str(*bin_op));
                        out.append(ro.sl.as_str());
                        out.append(")");
                        Ok(Sl { sl: out, ty })
                    }
                },
                None => Err(
                    ShaderCompileError {
                        message: "operand types do not match".to_string(),
                        construct: bin_op_str(*bin_op).to_string(),
                    },
                ),
            }
        },
        crate::ir::Expr::Call { name, args } => {
            let argv = match emit_args(args, sg, cx) {
                Ok(a) => a,
                Err(e2) => {
                    return Err(e2);
                },
            };
            let ghost sargs = sls_view(argv@);
            match crate::catalog::ShaderGen::find_fn(&sg.fns, name.as_str()) {
                Some(i) => {
                    if matches!(cx.target, SlTarget::Constant) {
                        Err(
                            ShaderCompileError {
                                message: "function call in constant expression".to_string(),
                                construct: name.clone(),
                            },
                        )
                    } else {
                        proof {
                            assert(crate::ir::fns_view(sg.fns@)[i as int]
                                == crate::catalog::fn_view_of(sg.fns@[i as int]));
                            assert(fn_named(crate::ir::fns_view(sg.fns@), name@)
                                == crate::ir::fns_view(sg.fns@)[i as int]);
                        }
                        let mut out = cx.call_prefix.clone();
                        out.append(name.as_str());
                        out.append("(");
                        let joined = join_args_exec(&argv);
                        out.append(joined.as_str());
                        if argv.len() > 0 && cx.defargs_call.as_str().unicode_len() > 0 {
                            out.append(",");
                        } else {
                            proof {
                                assert(cx.defargs_call@.len() == 0 ==> cx.defargs_call@
                                    =~= Seq::<char>::empty());
                                assert(call_sep(sargs, env.defargs_call) =~= Seq::<char>::empty());
                            }
                        }
                        let da = cx.defargs_call.clone();
                        out.append(da.as_str());
                        out.append(")");
                        let ghost st1 = st_of(*cx);
                        let ghost deps0 = deps_view(cx.fn_deps@);
                        if !deps_has(&cx.fn_deps, name.as_str()) {
                            push_dep(cx, name);
                            proof {
                                assert(deps_view(cx.fn_deps@) =~= deps0.push(name@));
                            }
                        }
                        proof {
                            assert(st_of(*cx) =~= (GenState {
                                fn_deps: deps_add(st1.fn_deps, name@),
                                ..st1
                            }));
                        }
                        Ok(Sl { sl: out, ty: sg.fns[i].ret })
                    }
                },
                None => {
                    match cx.map_call(name.as_str(), &argv) {
                        MapCallResult::Rename(n2) => {
                            match builtin_ret_ty(name.as_str(), &argv) {
                                Some(ty) => {
                                    let mut out = n2;
                                    out.append("(");
                                    let joined = join_args_exec(&argv);
                                    out.append(joined.as_str());
                                    out.append(")");
                                    Ok(Sl { sl: out, ty })
                                },
                                None => Err(
                                    ShaderCompileError {
                                        message: "unmapped built-in call".to_string(),
                                        construct: name.clone(),
                                    },
                                ),
                            }
                        },
                        MapCallResult::Rewrite(t, ty) => Ok(Sl { sl: t, ty }),
                        MapCallResult::Unhandled => Err(
                            ShaderCompileError {
                                message: "unmapped built-in call".to_string(),
                                construct: name.clone(),
                            },
                        ),
                    }
                },
            }
        },
        crate::ir::Expr::Field { base, member } => {
            match emit_expr(base, sg, cx) {
                Ok(o) => {
                    match swizzle_ty_exec(o.ty, member.as_str()) {
                        Some(ty) => {
                            let mut out = o.sl;
                            out.append(".");
                            out.append(member.as_str());
                            Ok(Sl { sl: out, ty })
                        },
                        None => Err(
                            ShaderCompileError {
                                message: "unknown field or swizzle".to_string(),
                                construct: member.clone(),
                            },
                        ),
                    }
                },
                Err(e2) => Err(e2),
            }
        },
    }
}

/// Records one callee on the context's dependency worklist.
fn push_dep(cx: &mut SlCx, name: &String)
    ensures
        cx_fixed(*old(cx), *final(cx)),
        final(cx).scope@ == old(cx).scope@,
        final(cx).auto_vary@ == old(cx).auto_vary@,
        final(cx).fn_deps@ == old(cx).fn_deps@.push(*name),
{
    cx.fn_deps.push(name.clone());
}

/// Emits a call's argument list, left to right.
#[verifier::loop_isolation(false)]
pub fn emit_args(args: &Vec<crate::ir::Expr>, sg: &crate::catalog::ShaderGen, cx: &mut SlCx) -> (r:
    Result<Vec<Sl>, ShaderCompileError>)
    requires
        sg.wf(),
    ensures
        cx_fixed(*old(cx), *final(cx)),
        match sp_args(crate::ir::exprs_view(args@), env_of(*sg, *old(cx)), st_of(*old(cx))) {
            Ok(ao) => r matches Ok(v) && sls_view(v@) == ao.args && st_of(*final(cx)) == ao.st,
            Err(er) => r matches Err(e2) && e2.message@ == er.message && e2.construct@
                == er.construct,
        },
    decreases *args,
{
    let ghost env = env_of(*sg, *old(cx));
    let ghost st0 = st_of(*old(cx));
    let ghost av = crate::ir::exprs_view(args@);
    proof {
        crate::ir::lemma_exprs_view(args@);
        assert(av.take(0) =~= Seq::<crate::ir::ExprV>::empty());
    }
    let mut out: Vec<Sl> = Vec::new();
    proof {
        assert(sls_view(out@) =~= Seq::<SlV>::empty());
        assert((ArgsOk { args: sls_view(out@), st: st_of(*cx) }) =~= (ArgsOk {
            args: Seq::empty(),
            st: st0,
        }));
    }
    let mut i: usize = 0;
    while i < args.len()
        invariant
            i <= args@.len(),
            cx_fixed(*old(cx), *cx),
            env_of(*sg, *cx) == env,
            sp_args(av.take(i as int), env, st0) == Ok::<ArgsOk, EmitErr>(
                ArgsOk { args: sls_view(out@), st: st_of(*cx) },
            ),
        decreases args@.len() - i,
    {
        proof {
            assert(av.take(i + 1 as int).drop_last() =~= av.take(i as int));
            assert(av.take(i + 1 as int).last() == av[i as int]);
            assert(av[i as int] == crate::ir::expr_view(args@[i as int]));
        }
        let x = match emit_expr(&args[i], sg, cx) {
            Ok(o) => o,
            Err(e2) => {
                proof {
                    lemma_sp_args_err_extends(av, i + 1 as int, env, st0);
                }
                return Err(e2);
            },
        };
        let ghost gx = x;
        let ghost outv0 = sls_view(out@);
        out.push(x);
        proof {
            assert(sls_view(out@) =~= outv0.push(sl_view(gx)));
            assert(env_of(*sg, *cx) =~= env);
            assert((ArgsOk { args: sls_view(out@), st: st_of(*cx) }) =~= (ArgsOk {
                args: outv0.push(sl_view(gx)),
                st: st_of(*cx),
            }));
        }
        i = i + 1;
    }
    proof {
        assert(av.take(args@.len() as int) =~= av);
    }
    Ok(out)
}

/// Emits one statement.
#[verifier::rlimit(60)]
pub fn emit_stmt(st: &crate::ir::Stmt, sg: &crate::catalog::ShaderGen, cx: &mut SlCx) -> (r: Result<
    String,
    ShaderCompileError,
>)
    requires
        sg.wf(),
    ensures
        cx_fixed(*old(cx), *final(cx)),
        match sp_stmt(crate::ir::stmt_view(*st), env_of(*sg, *old(cx)), st_of(*old(cx))) {
            Ok(b) => r matches Ok(t) && t@ == b.text && st_of(*final(cx)) == b.st,
            Err(er) => r matches Err(e2) && e2.message@ == er.message && e2.construct@
                == er.construct,
        },
    decreases *st,
{
    let ghost env = env_of(*sg, *old(cx));
    let ghost st0 = st_of(*old(cx));
    match st {
        crate::ir::Stmt::Let { name, ty, init } => {
            let o = match emit_expr(init, sg, cx) {
                Ok(o) => o,
                Err(e2) => {
                    return Err(e2);
                },
            };
            if scope_lookup(&cx.scope, name.as_str()).is_some() {
                return Err(
                    ShaderCompileError {
                        message: "duplicate local declaration".to_string(),
                        construct: name.clone(),
                    },
                );
            }
            if !(o.ty == *ty) {
                return Err(
                    ShaderCompileError {
                        message: "declaration type mismatch".to_string(),
                        construct: name.clone(),
                    },
                );
            }
            let ghost scope1 = crate::ir::args_view(cx.scope@);
            cx.scope.push(crate::ir::ShFnArg { name: name.clone(), ty: *ty });
            proof {
                assert(crate::ir::args_view(cx.scope@) =~= scope1.push(
                    crate::ir::ShFnArgV { name: name@, ty: *ty },
                ));
            }
            let mut out = "  ".to_string();
            let tn = cx.map_type(*ty);
            out.append(tn.as_str());
            out.append(" ");
            out.append(name.as_str());
            out.append(" = ");
            out.append(o.sl.as_str());
            out.append(";\n");
            Ok(out)
        },
        crate::ir::Stmt::Assign { target, value } => {
            let to = match emit_expr(target, sg, cx) {
                Ok(o) => o,
                Err(e2) => {
                    return Err(e2);
                },
            };
            proof {
                assert(env_of(*sg, *cx) =~= env);
            }
            let vo = match emit_expr(value, sg, cx) {
                Ok(o) => o,
                Err(e2) => {
                    return Err(e2);
                },
            };
            if !(to.ty == vo.ty) {
                return Err(
                    ShaderCompileError {
                        message: "assignment type mismatch".to_string(),
                        construct: "=".to_string(),
                    },
                );
            }
            let mut out = "  ".to_string();
            out.append(to.sl.as_str());
            out.append(" = ");
            out.append(vo.sl.as_str());
            out.append(";\n");
            Ok(out)
        },
        crate::ir::Stmt::If { cond, then_branch, else_branch } => {
            let saved = clone_scope(&cx.scope);
            let co = match emit_expr(cond, sg, cx) {
                Ok(o) => o,
                Err(e2) => {
                    return Err(e2);
                },
            };
            if !(co.ty == ShTy::Bool) {
                return Err(
                    ShaderCompileError {
                        message: "condition is not boolean".to_string(),
                        construct: "if".to_string(),
                    },
                );
            }
            proof {
                assert(env_of(*sg, *cx) =~= env);
            }
            let t1 = match emit_stmts(then_branch, sg, cx) {
                Ok(t) => t,
                Err(e2) => {
                    return Err(e2);
                },
            };
            let mut out = "  if(".to_string();
            out.append(co.sl.as_str());
            out.append("){\n");
            out.append(t1.as_str());
            if else_branch.len() == 0 {
                out.append("  }\n");
                cx.scope = saved;
                proof {
                    let b = sp_stmt(crate::ir::stmt_view(*st), env, st0)->Ok_0;
                    assert(st_of(*cx) =~= b.st);
                }
                Ok(out)
            } else {
                cx.scope = clone_scope(&saved);
                proof {
                    let ghost t1st = sp_stmts(
                        crate::ir::stmts_view(then_branch@),
                        env,
                        sp_expr(crate::ir::expr_view(*cond), env, st0)->Ok_0.st,
                    )->Ok_0.st;
                    assert(st_of(*cx) =~= (GenState { scope: st0.scope, ..t1st }));
                    assert(env_of(*sg, *cx) =~= env);
                }
                let t2 = match emit_stmts(else_branch, sg, cx) {
                    Ok(t) => t,
                    Err(e2) => {
                        return Err(e2);
                    },
                };
                out.append("  }\n  else {\n");
                out.append(t2.as_str());
                out.append("  }\n");
                cx.scope = saved;
                proof {
                    let b = sp_stmt(crate::ir::stmt_view(*st), env, st0)->Ok_0;
                    assert(st_of(*cx) =~= b.st);
                }
                Ok(out)
            }
        },
        crate::ir::Stmt::Return { expr } => {
            let o = match emit_expr(expr, sg, cx) {
                Ok(o) => o,
                Err(e2) => {
                    return Err(e2);
                },
            };
            let mut out = "  return ".to_string();
            out.append(o.sl.as_str());
            out.append(";\n");
            Ok(out)
        },
    }
}

/// Emits a statement list, in order.
pub fn emit_stmts(ss: &Vec<crate::ir::Stmt>, sg: &crate::catalog::ShaderGen, cx: &mut SlCx) -> (r:
    Result<String, ShaderCompileError>)
    requires
        sg.wf(),
    ensures
        cx_fixed(*old(cx), *final(cx)),
        match sp_stmts(crate::ir::stmts_view(ss@), env_of(*sg, *old(cx)), st_of(*old(cx))) {
            Ok(b) => r matches Ok(t) && t@ == b.text && st_of(*final(cx)) == b.st,
            Err(er) => r matches Err(e2) && e2.message@ == er.message && e2.construct@
                == er.construct,
        },
    decreases *ss,
{
    let ghost env = env_of(*sg, *old(cx));
    let ghost st0 = st_of(*old(cx));
    let ghost sv = crate::ir::stmts_view(ss@);
    proof {
        crate::ir::lemma_stmts_view(ss@);
        assert(sv.take(0) =~= Seq::<crate::ir::StmtV>::empty());
    }
    let mut out = String::new();
    let mut i: usize = 0;
    while i < ss.len()
        invariant
            i <= ss@.len(),
            cx_fixed(*old(cx), *cx),
            env_of(*sg, *cx) == env,
            sp_stmts(sv.take(i as int), env, st0) == Ok::<BlockOk, EmitErr>(
                BlockOk { text: out@, st: st_of(*cx) },
            ),
        decreases ss@.len() - i,
    {
        proof {
            assert(sv.take(i + 1 as int).drop_last() =~= sv.take(i as int));
            assert(sv.take(i + 1 as int).last() == sv[i as int]);
            assert(sv[i as int] == crate::ir::stmt_view(ss@[i as int]));
        }
        let t = match emit_stmt(&ss[i], sg, cx) {
            Ok(t) => t,
            Err(e2) => {
                proof {
                    lemma_sp_stmts_err_extends(sv, i + 1 as int, env, st0);
                }
                return Err(e2);
            },
        };
        out.append(t.as_str());
        proof {
            assert(env_of(*sg, *cx) =~= env);
        }
        i = i + 1;
    }
    proof {
        assert(sv.take(ss@.len() as int) =~= sv);
    }
    Ok(out)
}

/// Ghost result of emitting one function definition: its text, the
/// promotions recorded while emitting it, and the callees it depends on.
#[verifier::ext_equal]
pub ghost struct FnOk {
    pub text: Seq<char>,
    pub autos: Seq<ShVar>,
    pub deps: Seq<Seq<char>>,
}

/// The parameter list text of one function definition.
pub open spec fn params_text(bk: Backend, args: Seq<crate::ir::ShFnArgV>) -> Seq<char>
    decreases args.len(),
{
    if args.len() == 0 {
        Seq::empty()
    } else if args.len() == 1 {
        map_type_text(bk, args[0].ty) + " "@ + args[0].name
    } else {
        params_text(bk, args.drop_last()) + ","@ + map_type_text(bk, args.last().ty) + " "@
            + args.last().name
    }
}

/// The separator between declared parameters and the fixed argument plumbing.
pub open spec fn param_sep(args: Seq<crate::ir::ShFnArgV>, defargs: Seq<char>) -> Seq<char> {
    if args.len() > 0 && defargs.len() > 0 {
        ","@
    } else {
        Seq::<char>::empty()
    }
}

/// What one function definition emits: its signature with the fixed argument
/// plumbing appended, then its body in a scope of exactly its parameters.
/// Dependencies are collected fresh; promotions accumulate.
pub open spec fn sp_fn_def(f: crate::ir::ShFnDefV, env: GenEnv, av: Seq<ShVar>) -> Result<
    FnOk,
    EmitErr,
> {
    match sp_stmts(
        f.body,
        env,
        GenState { scope: f.args, fn_deps: Seq::empty(), auto_vary: av },
    ) {
        Ok(b) => Ok(
            FnOk {
                text: map_type_text(env.backend, f.ret) + " "@ + env.prefix + f.name + "("@
                    + params_text(env.backend, f.args) + param_sep(f.args, env.defargs_fn)
                    + env.defargs_fn + "){\n"@ + b.text + "}\n"@,
                autos: b.st.auto_vary,
                deps: b.st.fn_deps,
            },
        ),
        Err(e2) => Err(e2),
    }
}

/// Executable parameter list text.
pub fn params_text_exec(bk: Backend, args: &Vec<crate::ir::ShFnArg>, cx: &SlCx) -> (r: String)
    requires
        cx.backend == bk,
    ensures
        r@ == params_text(bk, crate::ir::args_view(args@)),
{
    let ghost av = crate::ir::args_view(args@);
    let mut out = String::new();
    proof {
        assert(av.take(0) =~= Seq::<crate::ir::ShFnArgV>::empty());
    }
    let mut i: usize = 0;
    while i < args.len()
        invariant
            i <= args@.len(),
            out@ == params_text(bk, av.take(i as int)),
        decreases args@.len() - i,
    {
        proof {
            assert(av.take(i + 1 as int).drop_last() =~= av.take(i as int));
            assert(av.take(i + 1 as int).last() == av[i as int]);
            assert(av[i as int] == crate::ir::arg_view(args@[i as int]));
        }
        if i > 0 {
            out.append(",");
        }
        let tn = cx.map_type(args[i].ty);
        out.append(tn.as_str());
        out.append(" ");
        out.append(args[i].name.as_str());
        i = i + 1;
    }
    proof {
        assert(av.take(args@.len() as int) =~= av);
    }
    out
}

/// Emits one function definition. The context's scope and dependency list
/// are reset for the function; promotions accumulate across functions.
#[verifier::rlimit(60)]
pub fn emit_fn_def(f: &crate::ir::ShFnDef, sg: &crate::catalog::ShaderGen, cx: &mut SlCx) -> (r:
    Result<String, ShaderCompileError>)
    requires
        sg.wf(),
    ensures
        cx_fixed(*old(cx), *final(cx)),
        match sp_fn_def(crate::ir::fn_view(*f), env_of(*sg, *old(cx)), old(cx).auto_vary@) {
            Ok(fo) => r matches Ok(t) && t@ == fo.text && final(cx).auto_vary@ == fo.autos
                && deps_view(final(cx).fn_deps@) == fo.deps,
            Err(er) => r matches Err(e2) && e2.message@ == er.message && e2.construct@
                == er.construct,
        },
{
    let ghost env = env_of(*sg, *old(cx));
    cx.scope = clone_scope(&f.args);
    cx.fn_deps = Vec::new();
    proof {
        assert(deps_view(cx.fn_deps@) =~= Seq::<Seq<char>>::empty());
        assert(st_of(*cx) =~= (GenState {
            scope: crate::ir::fn_view(*f).args,
            fn_deps: Seq::empty(),
            auto_vary: old(cx).auto_vary@,
        }));
        assert(env_of(*sg, *cx) =~= env);
    }
    let body = match emit_stmts(&f.body, sg, cx) {
        Ok(b) => b,
        Err(e2) => {
            return Err(e2);
        },
    };
    let mut out = cx.map_type(f.ret);
    out.append(" ");
    let pfx = cx.call_prefix.clone();
    out.append(pfx.as_str());
    out.append(f.name.as_str());
    out.append("(");
    let params = params_text_exec(cx.backend, &f.args, cx);
    out.append(params.as_str());
    if f.args.len() > 0 && cx.defargs_fn.as_str().unicode_len() > 0 {
        out.append(",");
    } else {
        proof {
            assert(cx.defargs_fn@.len() == 0 ==> cx.defargs_fn@ =~= Seq::<char>::empty());
            assert(param_sep(crate::ir::fn_view(*f).args, env.defargs_fn)
                =~= Seq::<char>::empty());
        }
    }
    let da = cx.defargs_fn.clone();
    out.append(da.as_str());
    out.append("){\n");
    out.append(body.as_str());
    out.append("}\n");
    Ok(out)
}

/// Ghost state of call-graph resolution: the functions already emitted, the
/// promotions so far, and the source text produced so far.
#[verifier::ext_equal]
pub ghost struct RState {
    pub done: Seq<Seq<char>>,
    pub auto_vary: Seq<ShVar>,
    pub out: Seq<char>,
}

/// Resolution state well-formedness: each emitted name is recorded once and
/// names a catalog function.
pub open spec fn rwf(fns: Seq<crate::ir::ShFnDefV>, done: Seq<Seq<char>>) -> bool {
    &&& done.no_duplicates()
    &&& forall|i: int| 0 <= i < done.len() ==> crate::catalog::has_fn_v(fns, #[trigger] done[i])
}

/// Resolving one function: skip it when already emitted; otherwise emit its
/// body, resolve every callee first, and append the function after them, so
/// the output is deduplicated and ordered callee before caller. The fuel
/// only bounds the recursion; it is never exhausted from a well-formed
/// start.
pub open spec fn sp_resolve_fn(name: Seq<char>, env: GenEnv, st: RState, fuel: nat) -> Result<
    RState,
    EmitErr,
>
    decreases fuel, 0nat,
{
    if deps_contains(st.done, name) {
        Ok(st)
    } else if !crate::catalog::has_fn_v(env.fns, name) {
        Err(EmitErr { message: "undefined function"@, construct: name })
    } else if fuel == 0 {
        Err(EmitErr { message: "call graph too deep"@, construct: name })
    } else {
        let f = fn_named(env.fns, name);
        let st1 = RState { done: st.done.push(name), ..st };
        match sp_fn_def(f, env, st1.auto_vary) {
            Ok(fo) => match sp_resolve_list(
                fo.deps,
                env,
                RState { auto_vary: fo.autos, ..st1 },
                (fuel - 1) as nat,
            ) {
                Ok(st2) => Ok(RState { out: st2.out + fo.text, ..st2 }),
                Err(e2) => Err(e2),
            },
            Err(e2) => Err(e2),
        }
    }
}

/// Resolving a list of callees, in order.
pub open spec fn sp_resolve_list(deps: Seq<Seq<char>>, env: GenEnv, st: RState, fuel: nat) -> Result<
    RState,
    EmitErr,
>
    decreases fuel, deps.len(),
{
    if deps.len() == 0 {
        Ok(st)
    } else {
        match sp_resolve_fn(deps[0], env, st, fuel) {
            Ok(st2) => sp_resolve_list(deps.drop_first(), env, st2, fuel),
            Err(e2) => Err(e2),
        }
    }
}

/// An emitted-set that names only catalog functions is never larger than the
/// function table.
pub proof fn lemma_done_le(fns: Seq<crate::ir::ShFnDefV>, done: Seq<Seq<char>>)
    requires
        crate::catalog::distinct_fn_names(fns),
        rwf(fns, done),
    ensures
        done.len() <= fns.len(),
{
    broadcast use vstd::seq_lib::seq_to_set_is_finite;

    let names = fns.map_values(|f: crate::ir::ShFnDefV| f.name);
    done.unique_seq_to_set();
    names.lemma_cardinality_of_set();
    assert forall|x: Seq<char>| done.to_set().contains(x) implies names.to_set().contains(x) by {
        let i = choose|i: int| 0 <= i < done.len() && done[i] == x;
        assert(crate::catalog::has_fn_v(fns, done[i]));
        let j = choose|j: int| 0 <= j < fns.len() && fns[j].name == x;
        assert(names[j] == x);
        assert(names.contains(x));
    }
    vstd::set_lib::lemma_len_subset(done.to_set(), names.to_set());
}

/// Resolution preserves well-formedness and only grows the emitted set.
pub proof fn lemma_resolve_fn_props(name: Seq<char>, env: GenEnv, st: RState, fuel: nat)
    requires
        crate::catalog::distinct_fn_names(env.fns),
        rwf(env.fns, st.done),
        fuel >= env.fns.len() - st.done.len(),
    ensures
        match sp_resolve_fn(name, env, st, fuel) {
            Ok(st2) => rwf(env.fns, st2.done) && st.done.len() <= st2.done.len(),
            Err(_) => true,
        },
    decreases fuel, 0nat,
{
    if deps_contains(st.done, name) {
    } else if !crate::catalog::has_fn_v(env.fns, name) {
    } else {
        let st1 = RState { done: st.done.push(name), ..st };
        assert(rwf(env.fns, st1.done)) by {
            assert(forall|i: int| 0 <= i < st.done.len() ==> st.done[i] != name);
        }
        lemma_done_le(env.fns, st1.done);
        assert(st.done.len() < env.fns.len());
        assert(fuel >= 1);
        let f = fn_named(env.fns, name);
        match sp_fn_def(f, env, st1.auto_vary) {
            Ok(fo) => {
                lemma_resolve_list_props(
                    fo.deps,
                    env,
                    RState { auto_vary: fo.autos, ..st1 },
                    (fuel - 1) as nat,
                );
            },
            Err(_) => {},
        }
    }
}

/// Resolution of a list preserves well-formedness and only grows the
/// emitted set.
pub proof fn lemma_resolve_list_props(deps: Seq<Seq<char>>, env: GenEnv, st: RState, fuel: nat)
    requires
        crate::catalog::distinct_fn_names(env.fns),
        rwf(env.fns, st.done),
        fuel >= env.fns.len() - st.done.len(),
    ensures
        match sp_resolve_list(deps, env, st, fuel) {
            Ok(st2) => rwf(env.fns, st2.done) && st.done.len() <= st2.done.len(),
            Err(_) => true,
        },
    decreases fuel, deps.len(),
{
    if deps.len() == 0 {
    } else {
        lemma_resolve_fn_props(deps[0], env, st, fuel);
        match sp_resolve_fn(deps[0], env, st, fuel) {
            Ok(st2) => {
                lemma_resolve_list_props(deps.drop_first(), env, st2, fuel);
            },
            Err(_) => {},
        }
    }
}

/// Any two sufficient fuels resolve one function identically.
pub proof fn lemma_resolve_fn_fuel(name: Seq<char>, env: GenEnv, st: RState, f1: nat, f2: nat)
    requires
        crate::catalog::distinct_fn_names(env.fns),
        rwf(env.fns, st.done),
        f1 >= env.fns.len() - st.done.len(),
        f2 >= env.fns.len() - st.done.len(),
    ensures
        sp_resolve_fn(name, env, st, f1) == sp_resolve_fn(name, env, st, f2),
    decreases f1 + f2, 0nat,
{
    if deps_contains(st.done, name) {
    } else if !crate::catalog::has_fn_v(env.fns, name) {
    } else {
        let st1 = RState { done: st.done.push(name), ..st };
        assert(rwf(env.fns, st1.done)) by {
            assert(forall|i: int| 0 <= i < st.done.len() ==> st.done[i] != name);
        }
        lemma_done_le(env.fns, st1.done);
        assert(st.done.len() < env.fns.len());
        let f = fn_named(env.fns, name);
        match sp_fn_def(f, env, st1.auto_vary) {
            Ok(fo) => {
                lemma_resolve_list_fuel(
                    fo.deps,
                    env,
                    RState { auto_vary: fo.autos, ..st1 },
                    (f1 - 1) as nat,
                    (f2 - 1) as nat,
                );
            },
            Err(_) => {},
        }
    }
}

/// Any two sufficient fuels resolve a list identically.
pub proof fn lemma_resolve_list_fuel(deps: Seq<Seq<char>>, env: GenEnv, st: RState, f1: nat, f2: nat)
    requires
        crate::catalog::distinct_fn_names(env.fns),
        rwf(env.fns, st.done),
        f1 >= env.fns.len() - st.done.len(),
        f2 >= env.fns.len() - st.done.len(),
    ensures
        sp_resolve_list(deps, env, st, f1) == sp_resolve_list(deps, env, st, f2),
    decreases f1 + f2, deps.len(),
{
    if deps.len() == 0 {
    } else {
        lemma_resolve_fn_fuel(deps[0], env, st, f1, f2);
        lemma_resolve_fn_props(deps[0], env, st, f1);
        match sp_resolve_fn(deps[0], env, st, f1) {
            Ok(st2) => {
                lemma_resolve_list_fuel(deps.drop_first(), env, st2, f1, f2);
            },
            Err(_) => {},
        }
    }
}

/// The resolver's ghost state of one context and output buffer.
pub open spec fn rst_of(cx: SlCx, out: Seq<char>) -> RState {
    RState { done: deps_view(cx.fn_done@), auto_vary: cx.auto_vary@, out }
}

/// Resolves one function and everything it depends on into `out`,
/// callee before caller, emitting each function at most once.
#[verifier::rlimit(100)]
pub fn resolve_fn_rec(
    name: &str,
    sg: &crate::catalog::ShaderGen,
    cx: &mut SlCx,
    out: &mut String,
) -> (r: Result<(), ShaderCompileError>)
    requires
        sg.wf(),
        rwf(crate::ir::fns_view(sg.fns@), deps_view(old(cx).fn_done@)),
    ensures
        old(cx).target == final(cx).target && old(cx).backend == final(cx).backend && old(
            cx,
        ).defargs_fn@ == final(cx).defargs_fn@ && old(cx).defargs_call@ == final(cx).defargs_call@
            && old(cx).call_prefix@ == final(cx).call_prefix@,
        match sp_resolve_fn(
            name@,
            env_of(*sg, *old(cx)),
            rst_of(*old(cx), old(out)@),
            (crate::ir::fns_view(sg.fns@).len() - deps_view(old(cx).fn_done@).len()) as nat,
        ) {
            Ok(st2) => r matches Ok(_) && rst_of(*final(cx), final(out)@) == st2,
            Err(er) => r matches Err(e2) && e2.message@ == er.message && e2.construct@
                == er.construct,
        },
        rwf(crate::ir::fns_view(sg.fns@), deps_view(final(cx).fn_done@)),
        deps_view(old(cx).fn_done@).len() <= deps_view(final(cx).fn_done@).len(),
    decreases crate::ir::fns_view(sg.fns@).len() - deps_view(cx.fn_done@).len(),
{
    let ghost env = env_of(*sg, *old(cx));
    let ghost rst0 = rst_of(*old(cx), old(out)@);
    let ghost nfns = crate::ir::fns_view(sg.fns@).len() as int;
    let ghost fuel0 = (nfns - rst0.done.len()) as nat;
    if deps_has(&cx.fn_done, name) {
        return Ok(());
    }
    let found = crate::catalog::ShaderGen::find_fn(&sg.fns, name);
    let i = match found {
        Some(i) => i,
        None => {
            return Err(
                ShaderCompileError {
                    message: "undefined function".to_string(),
                    construct: name.to_string(),
                },
            );
        },
    };
    proof {
        assert(rwf(crate::ir::fns_view(sg.fns@), rst0.done.push(name@))) by {
            assert(forall|k: int| 0 <= k < rst0.done.len() ==> rst0.done[k] != name@);
        }
        lemma_done_le(crate::ir::fns_view(sg.fns@), rst0.done.push(name@));
        assert(rst0.done.len() < nfns);
        assert(fuel0 >= 1);
        assert(crate::ir::fns_view(sg.fns@)[i as int]
            == crate::catalog::fn_view_of(sg.fns@[i as int]));
        assert(fn_named(crate::ir::fns_view(sg.fns@), name@)
            == crate::ir::fns_view(sg.fns@)[i as int]);
    }
    let ghost deps_before = deps_view(cx.fn_done@);
    cx.fn_done.push(name.to_string());
    proof {
        assert(deps_view(cx.fn_done@) =~= deps_before.push(name@));
        assert(rwf(crate::ir::fns_view(sg.fns@), deps_view(cx.fn_done@))) by {
            assert(forall|k: int| 0 <= k < deps_before.len() ==> deps_before[k] != name@);
        }
        assert(env_of(*sg, *cx) =~= env);
    }
    let ghost st1 = RState { done: rst0.done.push(name@), ..rst0 };
    let ftext = match emit_fn_def(&sg.fns[i], sg, cx) {
        Ok(t) => t,
        Err(e2) => {
            return Err(e2);
        },
    };
    let ghost fo = sp_fn_def(crate::ir::fn_view(sg.fns@[i as int]), env, st1.auto_vary)->Ok_0;
    let deps = clone_deps(&cx.fn_deps);
    let ghost dv = deps_view(deps@);
    proof {
        assert(dv =~= fo.deps);
        assert(rst_of(*cx, out@) =~= (RState { auto_vary: fo.autos, ..st1 }));
        assert(dv.skip(0) =~= dv);
    }
    let ghost rst1 = RState { auto_vary: fo.autos, ..st1 };
    let ghost f1 = (fuel0 - 1) as nat;
    let mut j: usize = 0;
    while j < deps.len()
        invariant
            j <= deps@.len(),
            sg.wf(),
            old(cx).target == cx.target && old(cx).backend == cx.backend && old(cx).defargs_fn@
                == cx.defargs_fn@ && old(cx).defargs_call@ == cx.defargs_call@ && old(
                cx,
            ).call_prefix@ == cx.call_prefix@,
            rwf(crate::ir::fns_view(sg.fns@), deps_view(cx.fn_done@)),
            st1.done.len() <= deps_view(cx.fn_done@).len(),
            f1 >= nfns - deps_view(cx.fn_done@).len(),
            sp_resolve_list(dv, env, rst1, f1) == sp_resolve_list(
                dv.skip(j as int),
                env,
                rst_of(*cx, out@),
                f1,
            ),
        decreases deps@.len() - j,
    {
        let ghost rest = dv.skip(j as int);
        let ghost cur = rst_of(*cx, out@);
        proof {
            assert(rest[0] == dv[j as int]);
            assert(dv[j as int] == deps@[j as int]@);
            assert(rest.drop_first() =~= dv.skip(j + 1 as int));
        }
        let ghost fuel_here = (nfns - deps_view(cx.fn_done@).len()) as nat;
        proof {
            lemma_done_le(crate::ir::fns_view(sg.fns@), deps_view(cx.fn_done@));
        }
        match resolve_fn_rec(deps[j].as_str(), sg, cx, out) {
            Ok(_) => {
                proof {
                    lemma_resolve_fn_fuel(rest[0], env, cur, fuel_here, f1);
                    lemma_resolve_fn_props(rest[0], env, cur, f1);
                    assert(rst_of(*cx, out@) == sp_resolve_fn(rest[0], env, cur, f1)->Ok_0);
                }
            },
            Err(e2) => {
                proof {
                    lemma_resolve_fn_fuel(rest[0], env, cur, fuel_here, f1);
                }
                return Err(e2);
            },
        }
        j = j + 1;
    }
    proof {
        assert(dv.skip(deps@.len() as int) =~= Seq::<Seq<char>>::empty());
    }
    out.append(ftext.as_str());
    proof {
        let st2 = sp_resolve_list(dv, env, rst1, f1)->Ok_0;
        assert(rst_of(*cx, out@) =~= (RState { out: st2.out + fo.text, ..st2 }));
    }
    Ok(())
}

/// A value-equal copy of a name list.
pub fn clone_deps(v: &Vec<String>) -> (r: Vec<String>)
    ensures
        r@ == v@,
{
    let mut r: Vec<String> = Vec::new();
    let mut i: usize = 0;
    while i < v.len()
        invariant
            i <= v@.len(),
            r@ == v@.take(i as int),
        decreases v@.len() - i,
    {
        r.push(v[i].clone());
        proof {
            assert(v@.take(i + 1 as int) =~= v@.take(i as int).push(v@[i as int]));
        }
        i = i + 1;
    }
    proof {
        assert(v@.take(v@.len() as int) =~= v@);
    }
    r
}

/// Resolves the context's seeded work list: the ordered, deduplicated,
/// callee-before-caller text of every reachable function definition.
#[verifier::rlimit(60)]
pub fn assemble_fn_and_deps(sg: &crate::catalog::ShaderGen, cx: &mut SlCx) -> (r: Result<
    String,
    ShaderCompileError,
>)
    requires
        sg.wf(),
        rwf(crate::ir::fns_view(sg.fns@), deps_view(old(cx).fn_done@)),
    ensures
        old(cx).target == final(cx).target && old(cx).backend == final(cx).backend && old(
            cx,
        ).defargs_fn@ == final(cx).defargs_fn@ && old(cx).defargs_call@ == final(cx).defargs_call@
            && old(cx).call_prefix@ == final(cx).call_prefix@,
        match sp_resolve_list(
            deps_view(old(cx).fn_deps@),
            env_of(*sg, *old(cx)),
            rst_of(*old(cx), Seq::empty()),
            (crate::ir::fns_view(sg.fns@).len() - deps_view(old(cx).fn_done@).len()) as nat,
        ) {
            Ok(st2) => r matches Ok(t) && rst_of(*final(cx), t@) == st2,
            Err(er) => r matches Err(e2) && e2.message@ == er.message && e2.construct@
                == er.construct,
        },
        rwf(crate::ir::fns_view(sg.fns@), deps_view(final(cx).fn_done@)),
    decreases 0nat,
{
    let ghost env = env_of(*sg, *old(cx));
    let ghost nfns = crate::ir::fns_view(sg.fns@).len() as int;
    let ghost fuel0 = (nfns - deps_view(old(cx).fn_done@).len()) as nat;
    let seeds = clone_deps(&cx.fn_deps);
    let ghost dv = deps_view(seeds@);
    let mut out = String::new();
    let ghost rst0 = rst_of(*old(cx), Seq::empty());
    proof {
        assert(dv =~= deps_view(old(cx).fn_deps@));
        assert(dv.skip(0) =~= dv);
        assert(rst_of(*cx, out@) =~= rst0);
    }
    let mut j: usize = 0;
    while j < seeds.len()
        invariant
            j <= seeds@.len(),
            sg.wf(),
            old(cx).target == cx.target && old(cx).backend == cx.backend && old(cx).defargs_fn@
                == cx.defargs_fn@ && old(cx).defargs_call@ == cx.defargs_call@ && old(
                cx,
            ).call_prefix@ == cx.call_prefix@,
            rwf(crate::ir::fns_view(sg.fns@), deps_view(cx.fn_done@)),
            rst0.done.len() <= deps_view(cx.fn_done@).len(),
            fuel0 >= nfns - deps_view(cx.fn_done@).len(),
            sp_resolve_list(dv, env, rst0, fuel0) == sp_resolve_list(
                dv.skip(j as int),
                env,
                rst_of(*cx, out@),
                fuel0,
            ),
        decreases seeds@.len() - j,
    {
        let ghost rest = dv.skip(j as int);
        let ghost cur = rst_of(*cx, out@);
        proof {
            assert(rest[0] == dv[j as int]);
            assert(dv[j as int] == seeds@[j as int]@);
            assert(rest.drop_first() =~= dv.skip(j + 1 as int));
        }
        let ghost fuel_here = (nfns - deps_view(cx.fn_done@).len()) as nat;
        match resolve_fn_rec(seeds[j].as_str(), sg, cx, &mut out) {
            Ok(_) => {
                proof {
                    lemma_resolve_fn_fuel(rest[0], env, cur, fuel_here, fuel0);
                    lemma_resolve_fn_props(rest[0], env, cur, fuel0);
                    assert(rst_of(*cx, out@) == sp_resolve_fn(rest[0], env, cur, fuel0)->Ok_0);
                }
            },
            Err(e2) => {
                proof {
                    lemma_resolve_fn_fuel(rest[0], env, cur, fuel_here, fuel0);
                }
                return Err(e2);
            },
        }
        j = j + 1;
    }
    proof {
        assert(dv.skip(seeds@.len() as int) =~= Seq::<Seq<char>>::empty());
    }
    Ok(out)
}

/// Decimal text of a register or slot index.
pub open spec fn dec_text(n: int) -> Seq<char>
    decreases n,
{
    if n < 10 {
        seq![digit_char(n)]
    } else {
        dec_text(n / 10) + seq![digit_char(n % 10)]
    }
}

/// Executable decimal text.
pub fn usize_to_string(n: usize) -> (r: String)
    ensures
        r@ == dec_text(n as int),
    decreases n,
{
    if n < 10 {
        digit_to_str((n % 10) as u32).to_string()
    } else {
        let mut r = usize_to_string(n / 10);
        r.append(digit_to_str((n % 10) as u32));
        r
    }
}

/// The `#define` block of the catalog's named constants, each initializer
/// resolved for the backend as a textual macro substitution.
pub open spec fn sp_consts_text(consts: Seq<crate::ir::ShConstV>, env: GenEnv) -> Result<
    Seq<char>,
    EmitErr,
>
    decreases consts.len(),
{
    if consts.len() == 0 {
        Ok(Seq::<char>::empty())
    } else {
        match sp_consts_text(consts.drop_last(), env) {
            Ok(pre) => match sp_expr(
                consts.last().value,
                env,
                GenState { scope: Seq::empty(), fn_deps: Seq::empty(), auto_vary: Seq::empty() },
            ) {
                Ok(o) => Ok(
                    pre + "#define "@ + consts.last().name + " ("@ + o.text + ")\n"@,
                ),
                Err(e2) => Err(e2),
            },
            Err(e2) => Err(e2),
        }
    }
}

/// An error in a prefix of the constants is the whole block's error.
pub proof fn lemma_sp_consts_err_extends(consts: Seq<crate::ir::ShConstV>, k: int, env: GenEnv)
    requires
        0 <= k <= consts.len(),
        sp_consts_text(consts.take(k), env) is Err,
    ensures
        sp_consts_text(consts, env) == sp_consts_text(consts.take(k), env),
    decreases consts.len(),
{
    if consts.len() > k {
        assert(consts.drop_last().take(k) =~= consts.take(k));
        lemma_sp_consts_err_extends(consts.drop_last(), k, env);
    } else {
        assert(consts.take(k) =~= consts);
    }
}

/// Emits the constants block for one backend. The target must be the
/// constant stage, where initializers may reference only literals, constants
/// and built-ins.
#[verifier::rlimit(60)]
pub fn emit_consts_block(sg: &crate::catalog::ShaderGen, backend: Backend) -> (r: Result<
    String,
    ShaderCompileError,
>)
    requires
        sg.wf(),
    ensures
        match sp_consts_text(
            crate::ir::consts_view(sg.consts@),
            const_env(*sg, backend),
        ) {
            Ok(t) => r matches Ok(o) && o@ == t,
            Err(er) => r matches Err(e2) && e2.message@ == er.message && e2.construct@
                == er.construct,
        },
{
    let ghost cv = crate::ir::consts_view(sg.consts@);
    let ghost env = const_env(*sg, backend);
    proof {
        assert(cv.take(0) =~= Seq::<crate::ir::ShConstV>::empty());
    }
    let mut out = String::new();
    let mut i: usize = 0;
    while i < sg.consts.len()
        invariant
            i <= sg.consts@.len(),
            sg.wf(),
            sp_consts_text(cv.take(i as int), env) == Ok::<Seq<char>, EmitErr>(out@),
        decreases sg.consts@.len() - i,
    {
        proof {
            assert(cv.take(i + 1 as int).drop_last() =~= cv.take(i as int));
            assert(cv.take(i + 1 as int).last() == cv[i as int]);
            assert(cv[i as int] == crate::catalog::const_view_of(sg.consts@[i as int]));
        }
        let mut ccx = SlCx {
            target: SlTarget::Constant,
            backend,
            defargs_fn: String::new(),
            defargs_call: String::new(),
            call_prefix: "_".to_string(),
            scope: Vec::new(),
            fn_deps: Vec::new(),
            fn_done: Vec::new(),
            auto_vary: Vec::new(),
        };
        proof {
            assert(env_of(*sg, ccx) =~= env);
            assert(st_of(ccx) =~= (GenState {
                scope: Seq::empty(),
                fn_deps: Seq::empty(),
                auto_vary: Seq::empty(),
            }));
        }
        let o = match emit_expr(&sg.consts[i].value, sg, &mut ccx) {
            Ok(o) => o,
            Err(e2) => {
                proof {
                    lemma_sp_consts_err_extends(cv, i + 1 as int, env);
                }
                return Err(e2);
            },
        };
        out.append("#define ");
        out.append(sg.consts[i].name.as_str());
        out.append(" (");
        out.append(o.sl.as_str());
        out.append(")\n");
        i = i + 1;
    }
    proof {
        assert(cv.take(sg.consts@.len() as int) =~= cv);
    }
    Ok(out)
}

/// The constant-stage environment of one backend: no stage plumbing at all.
pub open spec fn const_env(sg: crate::catalog::ShaderGen, backend: Backend) -> GenEnv {
    GenEnv {
        vars: sg.vars@,
        consts: crate::ir::consts_view(sg.consts@),
        fns: crate::ir::fns_view(sg.fns@),
        backend,
        target: SlTarget::Constant,
        prefix: "_"@,
        defargs_fn: Seq::empty(),
        defargs_call: Seq::empty(),
    }
}

/// The vertex-wrapper copy assignments of the auto-promoted varyings, in
/// promotion order: one copy from the geometry or instance struct per
/// promoted variable. Identical for every backend; this is a shader-model
/// semantic, not a backend detail.
pub open spec fn auto_copy_lines(autos: Seq<ShVar>) -> Seq<char>
    decreases autos.len(),
{
    if autos.len() == 0 {
        Seq::<char>::empty()
    } else {
        auto_copy_lines(autos.drop_last()) + auto_copy_line(autos.last())
    }
}

/// One vertex-wrapper copy assignment.
pub open spec fn auto_copy_line(v: ShVar) -> Seq<char> {
    if v.store == ShVarStore::Geometry {
        "       _vary."@ + v.name@ + " = _geom."@ + v.name@ + ";\n"@
    } else if v.store == ShVarStore::Instance {
        "       _vary."@ + v.name@ + " = _inst."@ + v.name@ + ";\n"@
    } else {
        Seq::<char>::empty()
    }
}

/// Appends the vertex-wrapper copy assignments.
pub fn append_auto_copies(out: &mut String, autos: &Vec<ShVar>)
    ensures
        final(out)@ == old(out)@ + auto_copy_lines(autos@),
{
    let ghost base = old(out)@;
    proof {
        assert(autos@.take(0) =~= Seq::<ShVar>::empty());
        assert(out@ =~= base + auto_copy_lines(autos@.take(0)));
    }
    let mut i: usize = 0;
    while i < autos.len()
        invariant
            i <= autos@.len(),
            out@ == base + auto_copy_lines(autos@.take(i as int)),
        decreases autos@.len() - i,
    {
        proof {
            assert(autos@.take(i + 1 as int).drop_last() =~= autos@.take(i as int));
            assert(autos@.take(i + 1 as int).last() == autos@[i as int]);
        }
        let v = &autos[i];
        match v.store {
            ShVarStore::Geometry => {
                out.append("       _vary.");
                out.append(v.name.as_str());
                out.append(" = _geom.");
                out.append(v.name.as_str());
                out.append(";\n");
            },
            ShVarStore::Instance => {
                out.append("       _vary.");
                out.append(v.name.as_str());
                out.append(" = _inst.");
                out.append(v.name.as_str());
                out.append(";\n");
            },
            _ => {
                proof {
                    assert(auto_copy_line(autos@[i as int]) =~= Seq::<char>::empty());
                }
            },
        }
        proof {
            assert(out@ =~= base + auto_copy_lines(autos@.take(i + 1 as int)));
        }
        i = i + 1;
    }
    proof {
        assert(autos@.take(autos@.len() as int) =~= autos@);
    }
}

/// Well-formedness of the auto-promoted varying list: pairwise-distinct
/// names, and every entry is a Geometry- or Instance-class variable of the
/// catalog, exactly as declared there.
pub open spec fn autos_wf(av: Seq<ShVar>, vars: Seq<ShVar>) -> bool {
    &&& crate::catalog::distinct_var_names(av)
    &&& forall|i: int|
        0 <= i < av.len() ==> {
            &&& ((#[trigger] av[i]).store == ShVarStore::Geometry || av[i].store
                == ShVarStore::Instance)
            &&& crate::catalog::has_var(vars, av[i].name@)
            &&& crate::catalog::var_named(vars, av[i].name@) == av[i]
        }
}

/// One sequence is a prefix of another.
pub open spec fn seq_prefix<A>(a: Seq<A>, b: Seq<A>) -> bool {
    a.len() <= b.len() && b.take(a.len() as int) == a
}

pub proof fn lemma_prefix_trans<A>(a: Seq<A>, b: Seq<A>, c: Seq<A>)
    requires
        seq_prefix(a, b),
        seq_prefix(b, c),
    ensures
        seq_prefix(a, c),
{
    assert(c.take(a.len() as int) =~= c.take(b.len() as int).take(a.len() as int));
}

/// Emitting one expression preserves the promoted list's well-formedness and
/// only extends it: a promotion is never dropped and never recorded twice.
pub proof fn lemma_sp_expr_autos(e: crate::ir::ExprV, env: GenEnv, st: GenState)
    requires
        crate::catalog::distinct_var_names(env.vars),
        autos_wf(st.auto_vary, env.vars),
    ensures
        sp_expr(e, env, st) matches Ok(o) ==> autos_wf(o.st.auto_vary, env.vars) && seq_prefix(
            st.auto_vary,
            o.st.auto_vary,
        ),
    decreases e,
{
    assert(st.auto_vary.take(st.auto_vary.len() as int) =~= st.auto_vary);
    match e {
        crate::ir::ExprV::Lit { .. } => {},
        crate::ir::ExprV::Var { name } => {
            if sp_var(name, env, st) is Ok {
                let o = sp_var(name, env, st)->Ok_0;
                if scope_ty(st.scope, name) is None && crate::catalog::has_var(env.vars, name)
                    && env.target != SlTarget::Constant {
                    let v = crate::catalog::var_named(env.vars, name);
                    if (v.store == ShVarStore::Geometry || v.store == ShVarStore::Instance)
                        && env.target == SlTarget::Pixel && !auto_vary_has(st.auto_vary, v.name@) {
                        assert(o.st.auto_vary =~= st.auto_vary.push(v));
                        assert(o.st.auto_vary.take(st.auto_vary.len() as int) =~= st.auto_vary);
                    }
                }
            }
        },
        crate::ir::ExprV::Unary { un_op, expr } => {
            lemma_sp_expr_autos(*expr, env, st);
        },
        crate::ir::ExprV::Binary { bin_op, left, right } => {
            lemma_sp_expr_autos(*left, env, st);
            if sp_expr(*left, env, st) is Ok {
                let lo = sp_expr(*left, env, st)->Ok_0;
                lemma_sp_expr_autos(*right, env, lo.st);
                if sp_expr(*right, env, lo.st) is Ok {
                    let ro = sp_expr(*right, env, lo.st)->Ok_0;
                    lemma_prefix_trans(st.auto_vary, lo.st.auto_vary, ro.st.auto_vary);
                }
            }
        },
        crate::ir::ExprV::Call { name, args } => {
            lemma_sp_args_autos(args, env, st);
        },
        crate::ir::ExprV::Field { base, member } => {
            lemma_sp_expr_autos(*base, env, st);
        },
    }
}

pub proof fn lemma_sp_args_autos(args: Seq<crate::ir::ExprV>, env: GenEnv, st: GenState)
    requires
        crate::catalog::distinct_var_names(env.vars),
        autos_wf(st.auto_vary, env.vars),
    ensures
        sp_args(args, env, st) matches Ok(ao) ==> autos_wf(ao.st.auto_vary, env.vars) && seq_prefix(
            st.auto_vary,
            ao.st.auto_vary,
        ),
    decreases args,
{
    assert(st.auto_vary.take(st.auto_vary.len() as int) =~= st.auto_vary);
    if args.len() > 0 {
        lemma_sp_args_autos(args.drop_last(), env, st);
        if sp_args(args.drop_last(), env, st) is Ok {
            let ao = sp_args(args.drop_last(), env, st)->Ok_0;
            lemma_sp_expr_autos(args.last(), env, ao.st);
            if sp_expr(args.last(), env, ao.st) is Ok {
                let o = sp_expr(args.last(), env, ao.st)->Ok_0;
                lemma_prefix_trans(st.auto_vary, ao.st.auto_vary, o.st.auto_vary);
            }
        }
    }
}

pub proof fn lemma_sp_stmt_autos(s: crate::ir::StmtV, env: GenEnv, st: GenState)
    requires
        crate::catalog::distinct_var_names(env.vars),
        autos_wf(st.auto_vary, env.vars),
    ensures
        sp_stmt(s, env, st) matches Ok(b) ==> autos_wf(b.st.auto_vary, env.vars) && seq_prefix(
            st.auto_vary,
            b.st.auto_vary,
        ),
    decreases s,
{
    assert(st.auto_vary.take(st.auto_vary.len() as int) =~= st.auto_vary);
    match s {
        crate::ir::StmtV::Let { name, ty, init } => {
            lemma_sp_expr_autos(init, env, st);
        },
        crate::ir::StmtV::Assign { target, value } => {
            lemma_sp_expr_autos(target, env, st);
            if sp_expr(target, env, st) is Ok {
                let to = sp_expr(target, env, st)->Ok_0;
                lemma_sp_expr_autos(value, env, to.st);
                if sp_expr(value, env, to.st) is Ok {
                    let vo = sp_expr(value, env, to.st)->Ok_0;
                    lemma_prefix_trans(st.auto_vary, to.st.auto_vary, vo.st.auto_vary);
                }
            }
        },
        crate::ir::StmtV::If { cond, then_branch, else_branch } => {
            lemma_sp_expr_autos(cond, env, st);
            if sp_expr(cond, env, st) is Ok {
                let co = sp_expr(cond, env, st)->Ok_0;
                lemma_sp_stmts_autos(then_branch, env, co.st);
                if sp_stmts(then_branch, env, co.st) is Ok {
                    let t1 = sp_stmts(then_branch, env, co.st)->Ok_0;
                    lemma_prefix_trans(st.auto_vary, co.st.auto_vary, t1.st.auto_vary);
                    if else_branch.len() > 0 {
                        lemma_sp_stmts_autos(
                            else_branch,
                            env,
                            GenState { scope: st.scope, ..t1.st },
                        );
                        if sp_stmts(else_branch, env, GenState { scope: st.scope, ..t1.st }) is Ok {
                            let t2 = sp_stmts(
                                else_branch,
                                env,
                                GenState { scope: st.scope, ..t1.st },
                            )->Ok_0;
                            lemma_prefix_trans(st.auto_vary, t1.st.auto_vary, t2.st.auto_vary);
                        }
                    }
                }
            }
        },
        crate::ir::StmtV::Return { expr } => {
            lemma_sp_expr_autos(expr, env, st);
        },
    }
}

pub proof fn lemma_sp_stmts_autos(ss: Seq<crate::ir::StmtV>, env: GenEnv, st: GenState)
    requires
        crate::catalog::distinct_var_names(env.vars),
        autos_wf(st.auto_vary, env.vars),
    ensures
        sp_stmts(ss, env, st) matches Ok(b) ==> autos_wf(b.st.auto_vary, env.vars) && seq_prefix(
            st.auto_vary,
            b.st.auto_vary,
        ),
    decreases ss,
{
    assert(st.auto_vary.take(st.auto_vary.len() as int) =~= st.auto_vary);
    if ss.len() > 0 {
        lemma_sp_stmts_autos(ss.drop_last(), env, st);
        if sp_stmts(ss.drop_last(), env, st) is Ok {
            let b = sp_stmts(ss.drop_last(), env, st)->Ok_0;
            lemma_sp_stmt_autos(ss.last(), env, b.st);
            if sp_stmt(ss.last(), env, b.st) is Ok {
                let b2 = sp_stmt(ss.last(), env, b.st)->Ok_0;
                lemma_prefix_trans(st.auto_vary, b.st.auto_vary, b2.st.auto_vary);
            }
        }
    }
}

/// Emitting one function definition preserves the promoted list's
/// well-formedness and only extends it.
pub proof fn lemma_sp_fn_def_autos(f: crate::ir::ShFnDefV, env: GenEnv, av: Seq<ShVar>)
    requires
        crate::catalog::distinct_var_names(env.vars),
        autos_wf(av, env.vars),
    ensures
        sp_fn_def(f, env, av) matches Ok(fo) ==> autos_wf(fo.autos, env.vars) && seq_prefix(
            av,
            fo.autos,
        ),
{
    lemma_sp_stmts_autos(
        f.body,
        env,
        GenState { scope: f.args, fn_deps: Seq::empty(), auto_vary: av },
    );
}

/// Call-graph resolution preserves the promoted list's well-formedness and
/// only extends it.
pub proof fn lemma_resolve_fn_autos(name: Seq<char>, env: GenEnv, st: RState, fuel: nat)
    requires
        crate::catalog::distinct_var_names(env.vars),
        autos_wf(st.auto_vary, env.vars),
    ensures
        sp_resolve_fn(name, env, st, fuel) matches Ok(st2) ==> autos_wf(st2.auto_vary, env.vars)
            && seq_prefix(st.auto_vary, st2.auto_vary),
    decreases fuel, 0nat,
{
    assert(st.auto_vary.take(st.auto_vary.len() as int) =~= st.auto_vary);
    if !deps_contains(st.done, name) && crate::catalog::has_fn_v(env.fns, name) && fuel > 0 {
        let f = fn_named(env.fns, name);
        let st1 = RState { done: st.done.push(name), ..st };
        lemma_sp_fn_def_autos(f, env, st1.auto_vary);
        if sp_fn_def(f, env, st1.auto_vary) is Ok {
            let fo = sp_fn_def(f, env, st1.auto_vary)->Ok_0;
            lemma_resolve_list_autos(
                fo.deps,
                env,
                RState { auto_vary: fo.autos, ..st1 },
                (fuel - 1) as nat,
            );
            if sp_resolve_list(
                fo.deps,
                env,
                RState { auto_vary: fo.autos, ..st1 },
                (fuel - 1) as nat,
            ) is Ok {
                let st2 = sp_resolve_list(
                    fo.deps,
                    env,
                    RState { auto_vary: fo.autos, ..st1 },
                    (fuel - 1) as nat,
                )->Ok_0;
                lemma_prefix_trans(st.auto_vary, fo.autos, st2.auto_vary);
            }
        }
    }
}

pub proof fn lemma_resolve_list_autos(deps: Seq<Seq<char>>, env: GenEnv, st: RState, fuel: nat)
    requires
        crate::catalog::distinct_var_names(env.vars),
        autos_wf(st.auto_vary, env.vars),
    ensures
        sp_resolve_list(deps, env, st, fuel) matches Ok(st2) ==> autos_wf(st2.auto_vary, env.vars)
            && seq_prefix(st.auto_vary, st2.auto_vary),
    decreases fuel, deps.len(),
{
    assert(st.auto_vary.take(st.auto_vary.len() as int) =~= st.auto_vary);
    if deps.len() > 0 {
        lemma_resolve_fn_autos(deps[0], env, st, fuel);
        if sp_resolve_fn(deps[0], env, st, fuel) is Ok {
            let st2 = sp_resolve_fn(deps[0], env, st, fuel)->Ok_0;
            lemma_resolve_list_autos(deps.drop_first(), env, st2, fuel);
            if sp_resolve_list(deps.drop_first(), env, st2, fuel) is Ok {
                let st3 = sp_resolve_list(deps.drop_first(), env, st2, fuel)->Ok_0;
                lemma_prefix_trans(st.auto_vary, st2.auto_vary, st3.auto_vary);
            }
        }
    }
}

/// Reading a Geometry- or Instance-class variable from the pixel stage
/// records it among the promotions: after the read, the promoted list holds
/// its name. With the extension property above, a variable read anywhere in
/// the pixel-reachable call graph is therefore in the final promoted list.
pub proof fn lemma_pixel_read_promotes(name: Seq<char>, env: GenEnv, st: GenState)
    requires
        env.target == SlTarget::Pixel,
        scope_ty(st.scope, name) is None,
        crate::catalog::has_var(env.vars, name),
        crate::catalog::var_named(env.vars, name).store == ShVarStore::Geometry
            || crate::catalog::var_named(env.vars, name).store == ShVarStore::Instance,
    ensures
        sp_var(name, env, st) matches Ok(o) && auto_vary_has(o.st.auto_vary, name)
            && o.text == "_vary."@ + name,
{
    let v = crate::catalog::var_named(env.vars, name);
    if !auto_vary_has(st.auto_vary, v.name@) {
        let o = sp_var(name, env, st)->Ok_0;
        assert(o.st.auto_vary == st.auto_vary.push(v));
        assert(o.st.auto_vary[st.auto_vary.len() as int] == v);
    }
}

/// Color-literal discipline: every `color` call takes exactly one literal
/// argument. The one built-in whose mapping reads its argument's emitted
/// text is then decided by the literal alone, the same for every backend.
pub open spec fn color_lit_expr(e: crate::ir::ExprV) -> bool
    decreases e,
{
    match e {
        crate::ir::ExprV::Lit { .. } => true,
        crate::ir::ExprV::Var { .. } => true,
        crate::ir::ExprV::Unary { expr, .. } => color_lit_expr(*expr),
        crate::ir::ExprV::Binary { left, right, .. } => color_lit_expr(*left) && color_lit_expr(
            *right,
        ),
        crate::ir::ExprV::Call { name, args } => (name == "color"@ ==> (args.len() == 1
            && args[0] is Lit)) && color_lit_exprs(args),
        crate::ir::ExprV::Field { base, .. } => color_lit_expr(*base),
    }
}

pub open spec fn color_lit_exprs(s: Seq<crate::ir::ExprV>) -> bool
    decreases s,
{
    if s.len() == 0 {
        true
    } else {
        color_lit_exprs(s.drop_last()) && color_lit_expr(s.last())
    }
}

pub open spec fn color_lit_stmt(s: crate::ir::StmtV) -> bool
    decreases s,
{
    match s {
        crate::ir::StmtV::Let { init, .. } => color_lit_expr(init),
        crate::ir::StmtV::Assign { target, value } => color_lit_expr(target) && color_lit_expr(
            value,
        ),
        crate::ir::StmtV::If { cond, then_branch, else_branch } => color_lit_expr(cond)
            && color_lit_stmts(then_branch) && color_lit_stmts(else_branch),
        crate::ir::StmtV::Return { expr } => color_lit_expr(expr),
    }
}

pub open spec fn color_lit_stmts(ss: Seq<crate::ir::StmtV>) -> bool
    decreases ss,
{
    if ss.len() == 0 {
        true
    } else {
        color_lit_stmts(ss.drop_last()) && color_lit_stmt(ss.last())
    }
}

pub open spec fn color_lit_fns(fs: Seq<crate::ir::ShFnDefV>) -> bool {
    forall|i: int| 0 <= i < fs.len() ==> color_lit_stmts((#[trigger] fs[i]).body)
}

pub open spec fn color_lit_consts(cs: Seq<crate::ir::ShConstV>) -> bool {
    forall|i: int| 0 <= i < cs.len() ==> color_lit_expr((#[trigger] cs[i]).value)
}

/// Two environments that compile the same catalog for the same stage; only
/// the backend and its fixed plumbing may differ.
pub open spec fn env_agree(a: GenEnv, b: GenEnv) -> bool {
    &&& a.vars == b.vars
    &&& a.consts == b.consts
    &&& a.fns == b.fns
    &&& a.target == b.target
}

/// Both backends map one built-in call the same way: the same mapped kind,
/// the same rewrite type, and the same result type for kept calls. Only the
/// spelled text differs.
#[verifier::rlimit(100)]
pub proof fn lemma_map_call_agree(
    bk1: Backend,
    bk2: Backend,
    name: Seq<char>,
    a1: Seq<SlV>,
    a2: Seq<SlV>,
)
    requires
        a1.len() == a2.len(),
        forall|i: int| 0 <= i < a1.len() ==> (#[trigger] a1[i]).ty == a2[i].ty,
        name == "color"@ ==> a1 == a2,
    ensures
        match (map_call_spec(bk1, name, a1), map_call_spec(bk2, name, a2)) {
            (MapCallResultV::Rename(_), MapCallResultV::Rename(_)) => builtin_ret_ty_spec(name, a1)
                == builtin_ret_ty_spec(name, a2),
            (MapCallResultV::Rewrite(_, t1), MapCallResultV::Rewrite(_, t2)) => t1 == t2,
            (MapCallResultV::Unhandled, MapCallResultV::Unhandled) => true,
            _ => false,
        },
{
    reveal_strlit("sample2d");
    reveal_strlit("color");
    reveal_strlit("vec2");
    reveal_strlit("vec3");
    reveal_strlit("vec4");
    reveal_strlit("mat2");
    reveal_strlit("mat3");
    reveal_strlit("mat4");
    reveal_strlit("mix");
    reveal_strlit("dfdx");
    reveal_strlit("dfdy");
    reveal_strlit("atan");
    reveal_strlit("fract");
    reveal_strlit("sin");
    reveal_strlit("cos");
    reveal_strlit("tan");
    reveal_strlit("asin");
    reveal_strlit("acos");
    reveal_strlit("pow");
    reveal_strlit("exp");
    reveal_strlit("log");
    reveal_strlit("exp2");
    reveal_strlit("log2");
    reveal_strlit("sqrt");
    reveal_strlit("abs");
    reveal_strlit("sign");
    reveal_strlit("floor");
    reveal_strlit("ceil");
    reveal_strlit("min");
    reveal_strlit("max");
    reveal_strlit("clamp");
    reveal_strlit("step");
    reveal_strlit("smoothstep");
    reveal_strlit("dot");
    reveal_strlit("cross");
    reveal_strlit("normalize");
    reveal_strlit("length");
    reveal_strlit("distance");
    reveal_strlit("reflect");
    if a1.len() >= 1 {
        assert(a1[0].ty == a2[0].ty);
    }
}

/// Emitting one expression is backend-independent in everything but the
/// spelled text: the same success or failure, the same error, the same
/// abstract type, and the same compile state on both backends.
pub proof fn lemma_sp_expr_agree(e: crate::ir::ExprV, env1: GenEnv, env2: GenEnv, st: GenState)
    requires
        env_agree(env1, env2),
        color_lit_expr(e),
    ensures
        match (sp_expr(e, env1, st), sp_expr(e, env2, st)) {
            (Ok(a), Ok(b)) => a.ty == b.ty && a.st == b.st,
            (Err(x), Err(y)) => x == y,
            _ => false,
        },
    decreases e,
{
    match e {
        crate::ir::ExprV::Lit { .. } => {},
        crate::ir::ExprV::Var { .. } => {},
        crate::ir::ExprV::Unary { un_op, expr } => {
            lemma_sp_expr_agree(*expr, env1, env2, st);
        },
        crate::ir::ExprV::Binary { bin_op, left, right } => {
            lemma_sp_expr_agree(*left, env1, env2, st);
            if sp_expr(*left, env1, st) is Ok {
                let lo1 = sp_expr(*left, env1, st)->Ok_0;
                lemma_sp_expr_agree(*right, env1, env2, lo1.st);
            }
        },
        crate::ir::ExprV::Call { name, args } => {
            lemma_sp_args_agree(args, env1, env2, st);
            if sp_args(args, env1, st) is Ok {
                let ao1 = sp_args(args, env1, st)->Ok_0;
                let ao2 = sp_args(args, env2, st)->Ok_0;
                if name == "color"@ {
                    // The one text-sensitive built-in: under the discipline
                    // its argument is one literal, emitted identically.
                    reveal_with_fuel(sp_args, 3);
                    let t = args[0]->Lit_text;
                    assert(args.drop_last() =~= Seq::<crate::ir::ExprV>::empty());
                    assert(args.last() == args[0]);
                    assert(ao1.args =~= Seq::<SlV>::empty().push(SlV { sl: t, ty: ShTy::Float }));
                    assert(ao2.args =~= Seq::<SlV>::empty().push(SlV { sl: t, ty: ShTy::Float }));
                    assert(ao1.args == ao2.args);
                }
                lemma_map_call_agree(env1.backend, env2.backend, name, ao1.args, ao2.args);
            }
        },
        crate::ir::ExprV::Field { base, member } => {
            lemma_sp_expr_agree(*base, env1, env2, st);
        },
    }
}

pub proof fn lemma_sp_args_agree(
    args: Seq<crate::ir::ExprV>,
    env1: GenEnv,
    env2: GenEnv,
    st: GenState,
)
    requires
        env_agree(env1, env2),
        color_lit_exprs(args),
    ensures
        match (sp_args(args, env1, st), sp_args(args, env2, st)) {
            (Ok(a), Ok(b)) => {
                &&& a.st == b.st
                &&& a.args.len() == b.args.len()
                &&& forall|i: int| 0 <= i < a.args.len() ==> (#[trigger] a.args[i]).ty
                    == b.args[i].ty
            },
            (Err(x), Err(y)) => x == y,
            _ => false,
        },
    decreases args,
{
    if args.len() > 0 {
        lemma_sp_args_agree(args.drop_last(), env1, env2, st);
        if sp_args(args.drop_last(), env1, st) is Ok {
            let ao1 = sp_args(args.drop_last(), env1, st)->Ok_0;
            lemma_sp_expr_agree(args.last(), env1, env2, ao1.st);
        }
    }
}

/// Emitting one statement is backend-independent in everything but the text.
pub proof fn lemma_sp_stmt_agree(s: crate::ir::StmtV, env1: GenEnv, env2: GenEnv, st: GenState)
    requires
        env_agree(env1, env2),
        color_lit_stmt(s),
    ensures
        match (sp_stmt(s, env1, st), sp_stmt(s, env2, st)) {
            (Ok(a), Ok(b)) => a.st == b.st,
            (Err(x), Err(y)) => x == y,
            _ => false,
        },
    decreases s,
{
    match s {
        crate::ir::StmtV::Let { name, ty, init } => {
            lemma_sp_expr_agree(init, env1, env2, st);
        },
        crate::ir::StmtV::Assign { target, value } => {
            lemma_sp_expr_agree(target, env1, env2, st);
            if sp_expr(target, env1, st) is Ok {
                let to1 = sp_expr(target, env1, st)->Ok_0;
                lemma_sp_expr_agree(value, env1, env2, to1.st);
            }
        },
        crate::ir::StmtV::If { cond, then_branch, else_branch } => {
            lemma_sp_expr_agree(cond, env1, env2, st);
            if sp_expr(cond, env1, st) is Ok {
                let co1 = sp_expr(cond, env1, st)->Ok_0;
                lemma_sp_stmts_agree(then_branch, env1, env2, co1.st);
                if sp_stmts(then_branch, env1, co1.st) is Ok {
                    let t1 = sp_stmts(then_branch, env1, co1.st)->Ok_0;
                    if else_branch.len() > 0 {
                        lemma_sp_stmts_agree(
                            else_branch,
                            env1,
                            env2,
                            GenState { scope: st.scope, ..t1.st },
                        );
                    }
                }
            }
        },
        crate::ir::StmtV::Return { expr } => {
            lemma_sp_expr_agree(expr, env1, env2, st);
        },
    }
}

pub proof fn lemma_sp_stmts_agree(
    ss: Seq<crate::ir::StmtV>,
    env1: GenEnv,
    env2: GenEnv,
    st: GenState,
)
    requires
        env_agree(env1, env2),
        color_lit_stmts(ss),
    ensures
        match (sp_stmts(ss, env1, st), sp_stmts(ss, env2, st)) {
            (Ok(a), Ok(b)) => a.st == b.st,
            (Err(x), Err(y)) => x == y,
            _ => false,
        },
    decreases ss,
{
    if ss.len() > 0 {
        lemma_sp_stmts_agree(ss.drop_last(), env1, env2, st);
        if sp_stmts(ss.drop_last(), env1, st) is Ok {
            let b1 = sp_stmts(ss.drop_last(), env1, st)->Ok_0;
            lemma_sp_stmt_agree(ss.last(), env1, env2, b1.st);
        }
    }
}

/// Emitting one function definition is backend-independent in everything but
/// the text: the same promotions and the same dependency list.
pub proof fn lemma_sp_fn_def_agree(
    f: crate::ir::ShFnDefV,
    env1: GenEnv,
    env2: GenEnv,
    av: Seq<ShVar>,
)
    requires
        env_agree(env1, env2),
        color_lit_stmts(f.body),
    ensures
        match (sp_fn_def(f, env1, av), sp_fn_def(f, env2, av)) {
            (Ok(x), Ok(y)) => x.autos == y.autos && x.deps == y.deps,
            (Err(x), Err(y)) => x == y,
            _ => false,
        },
{
    lemma_sp_stmts_agree(
        f.body,
        env1,
        env2,
        GenState { scope: f.args, fn_deps: Seq::empty(), auto_vary: av },
    );
}

/// Call-graph resolution is backend-independent in everything but the text:
/// the same emitted set and the same promotions on both backends, or the
/// same error.
pub proof fn lemma_resolve_fn_agree(
    name: Seq<char>,
    env1: GenEnv,
    env2: GenEnv,
    st1: RState,
    st2: RState,
    fuel: nat,
)
    requires
        env_agree(env1, env2),
        color_lit_fns(env1.fns),
        st1.done == st2.done,
        st1.auto_vary == st2.auto_vary,
    ensures
        match (sp_resolve_fn(name, env1, st1, fuel), sp_resolve_fn(name, env2, st2, fuel)) {
            (Ok(x), Ok(y)) => x.done == y.done && x.auto_vary == y.auto_vary,
            (Err(x), Err(y)) => x == y,
            _ => false,
        },
    decreases fuel, 0nat,
{
    if !deps_contains(st1.done, name) && crate::catalog::has_fn_v(env1.fns, name) && fuel > 0 {
        let f = fn_named(env1.fns, name);
        assert(color_lit_stmts(f.body)) by {
            let i = choose|i: int| 0 <= i < env1.fns.len() && env1.fns[i].name == name;
            assert(color_lit_stmts(env1.fns[i].body));
        }
        let n1 = RState { done: st1.done.push(name), ..st1 };
        let n2 = RState { done: st2.done.push(name), ..st2 };
        lemma_sp_fn_def_agree(f, env1, env2, n1.auto_vary);
        if sp_fn_def(f, env1, n1.auto_vary) is Ok {
            let fo1 = sp_fn_def(f, env1, n1.auto_vary)->Ok_0;
            let fo2 = sp_fn_def(f, env2, n2.auto_vary)->Ok_0;
            lemma_resolve_list_agree(
                fo1.deps,
                env1,
                env2,
                RState { auto_vary: fo1.autos, ..n1 },
                RState { auto_vary: fo2.autos, ..n2 },
                (fuel - 1) as nat,
            );
        }
    }
}

pub proof fn lemma_resolve_list_agree(
    deps: Seq<Seq<char>>,
    env1: GenEnv,
    env2: GenEnv,
    st1: RState,
    st2: RState,
    fuel: nat,
)
    requires
        env_agree(env1, env2),
        color_lit_fns(env1.fns),
        st1.done == st2.done,
        st1.auto_vary == st2.auto_vary,
    ensures
        match (sp_resolve_list(deps, env1, st1, fuel), sp_resolve_list(deps, env2, st2, fuel)) {
            (Ok(x), Ok(y)) => x.done == y.done && x.auto_vary == y.auto_vary,
            (Err(x), Err(y)) => x == y,
            _ => false,
        },
    decreases fuel, deps.len(),
{
    if deps.len() > 0 {
        lemma_resolve_fn_agree(deps[0], env1, env2, st1, st2, fuel);
        if sp_resolve_fn(deps[0], env1, st1, fuel) is Ok {
            let x1 = sp_resolve_fn(deps[0], env1, st1, fuel)->Ok_0;
            let x2 = sp_resolve_fn(deps[0], env2, st2, fuel)->Ok_0;
            lemma_resolve_list_agree(deps.drop_first(), env1, env2, x1, x2, fuel);
        }
    }
}

/// The constants block succeeds or fails identically on both backends.
pub proof fn lemma_consts_text_agree(cs: Seq<crate::ir::ShConstV>, env1: GenEnv, env2: GenEnv)
    requires
        env_agree(env1, env2),
        color_lit_consts(cs),
    ensures
        match (sp_consts_text(cs, env1), sp_consts_text(cs, env2)) {
            (Ok(_), Ok(_)) => true,
            (Err(x), Err(y)) => x == y,
            _ => false,
        },
    decreases cs.len(),
{
    if cs.len() > 0 {
        assert(color_lit_consts(cs.drop_last())) by {
            assert(forall|i: int|
                0 <= i < cs.drop_last().len() ==> cs.drop_last()[i] == cs[i]);
        }
        lemma_consts_text_agree(cs.drop_last(), env1, env2);
        assert(color_lit_expr(cs.last().value)) by {
            assert(cs[cs.len() - 1] == cs.last());
        }
        lemma_sp_expr_agree(
            cs.last().value,
            env1,
            env2,
            GenState { scope: Seq::empty(), fn_deps: Seq::empty(), auto_vary: Seq::empty() },
        );
    }
}

} // verus!
