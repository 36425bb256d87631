//! Execution of the supported instruction subset: the stack-machine
//! semantics as a specification, and a small executor proved against it.
//!
//! The semantics follows the instruction set's definition for the
//! instructions the code generator emits: 32-bit constants, local reads,
//! wrapping 32-bit arithmetic and `drop`.  Anything else stops execution
//! with no result.

use vstd::prelude::*;

use super::binary::values::s32_of_u32;
use super::syntax::instructions::Instr;
use super::syntax::modules::{ExportDesc, Module};

verus! {

/// Two's-complement 32-bit wrapping of an unbounded integer.
pub open spec fn u32_of_int(v: int) -> u32 {
    (v % 0x1_0000_0000) as u32
}

/// The state after running an instruction sequence on a value stack with
/// the given locals, or nothing on an unsupported instruction, an
/// out-of-range local or a stack underflow.
pub open spec fn exec_instrs(instrs: Seq<Instr>, locals: Seq<u32>, stack: Seq<u32>) -> Option<
    Seq<u32>,
>
    decreases instrs.len(),
{
    if instrs.len() == 0 {
        Some(stack)
    } else {
        let rest = instrs.drop_first();
        match instrs[0] {
            Instr::I32Const(n) => exec_instrs(rest, locals, stack.push(n)),
            Instr::LocalGet(x) => if x.0 < locals.len() {
                exec_instrs(rest, locals, stack.push(locals[x.0 as int]))
            } else {
                None
            },
            Instr::I32Add => if stack.len() >= 2 {
                exec_instrs(
                    rest,
                    locals,
                    stack.drop_last().drop_last().push(
                        u32_of_int(stack[stack.len() - 2] + stack[stack.len() - 1]),
                    ),
                )
            } else {
                None
            },
            Instr::I32Sub => if stack.len() >= 2 {
                exec_instrs(
                    rest,
                    locals,
                    stack.drop_last().drop_last().push(
                        u32_of_int(stack[stack.len() - 2] - stack[stack.len() - 1]),
                    ),
                )
            } else {
                None
            },
            Instr::I32Mul => if stack.len() >= 2 {
                exec_instrs(
                    rest,
                    locals,
                    stack.drop_last().drop_last().push(
                        u32_of_int(stack[stack.len() - 2] * stack[stack.len() - 1]),
                    ),
                )
            } else {
                None
            },
            Instr::Drop => if stack.len() >= 1 {
                exec_instrs(rest, locals, stack.drop_last())
            } else {
                None
            },
            _ => None,
        }
    }
}

/// Running a concatenation runs the two halves in order.
pub proof fn lemma_exec_append(a: Seq<Instr>, b: Seq<Instr>, locals: Seq<u32>, stack: Seq<u32>)
    ensures
        exec_instrs(a + b, locals, stack) == (match exec_instrs(a, locals, stack) {
            Some(mid) => exec_instrs(b, locals, mid),
            None => None,
        }),
    decreases a.len(),
{
    if a.len() == 0 {
        assert(a + b =~= b);
    } else {
        assert((a + b)[0] == a[0]);
        assert((a + b).drop_first() =~= a.drop_first() + b);
        lemma_exec_append(a.drop_first(), b, locals, stack);
        match a[0] {
            Instr::I32Const(n) => {
                lemma_exec_append(a.drop_first(), b, locals, stack.push(n));
            },
            Instr::LocalGet(x) => {
                if x.0 < locals.len() {
                    lemma_exec_append(a.drop_first(), b, locals, stack.push(locals[x.0 as int]));
                }
            },
            Instr::I32Add => {
                if stack.len() >= 2 {
                    lemma_exec_append(
                        a.drop_first(),
                        b,
                        locals,
                        stack.drop_last().drop_last().push(
                            u32_of_int(stack[stack.len() - 2] + stack[stack.len() - 1]),
                        ),
                    );
                }
            },
            Instr::I32Sub => {
                if stack.len() >= 2 {
                    lemma_exec_append(
                        a.drop_first(),
                        b,
                        locals,
                        stack.drop_last().drop_last().push(
                            u32_of_int(stack[stack.len() - 2] - stack[stack.len() - 1]),
                        ),
                    );
                }
            },
            Instr::I32Mul => {
                if stack.len() >= 2 {
                    lemma_exec_append(
                        a.drop_first(),
                        b,
                        locals,
                        stack.drop_last().drop_last().push(
                            u32_of_int(stack[stack.len() - 2] * stack[stack.len() - 1]),
                        ),
                    );
                }
            },
            Instr::Drop => {
                if stack.len() >= 1 {
                    lemma_exec_append(a.drop_first(), b, locals, stack.drop_last());
                }
            },
            _ => {},
        }
    }
}

/// The function index bound to the first export with the given name, if
/// it is a function export.
pub open spec fn find_export(exports: Seq<super::syntax::modules::Export>, name: Seq<char>) -> Option<
    u32,
>
    decreases exports.len(),
{
    if exports.len() == 0 {
        None
    } else if exports[0].name.0@ == name {
        match exports[0].desc {
            ExportDesc::Func(x) => Some(x.0),
            _ => None,
        }
    } else {
        find_export(exports.drop_first(), name)
    }
}

/// What invoking a function of the module by index yields: its body runs
/// on an empty stack with the arguments (then zero-initialized declared
/// locals) as locals, and must leave exactly one value.
pub open spec fn spec_invoke_idx(m: Module, fidx: int, args: Seq<u32>) -> Option<u32> {
    if 0 <= fidx < m.funcs@.len() {
        let f = m.funcs@[fidx];
        let locals = args + Seq::new(f.locals@.len(), |i: int| 0u32);
        match exec_instrs(f.body.0@, locals, Seq::empty()) {
            Some(st) => if st.len() == 1 {
                Some(st[0])
            } else {
                None
            },
            None => None,
        }
    } else {
        None
    }
}

/// What invoking an exported function by name yields.
pub open spec fn spec_invoke(m: Module, name: Seq<char>, args: Seq<u32>) -> Option<u32> {
    match find_export(m.exports@, name) {
        Some(fidx) => spec_invoke_idx(m, fidx as int, args),
        None => None,
    }
}

/// The arguments' two's-complement bit patterns.
pub open spec fn u32s_of_args(args: Seq<i32>) -> Seq<u32> {
    Seq::new(args.len(), |i: int| #[verifier::truncate] (args[i] as u32))
}

/// Invoke an exported function of a module with signed 32-bit arguments,
/// yielding the signed reading of its result; nothing when the name is
/// not exported as a function, the body reaches an unsupported
/// instruction or traps, or the final stack is not a single value.
#[verifier::loop_isolation(false)]
#[verifier::rlimit(100)]
pub fn invoke(module: &Module, name: &str, args: &Vec<i32>) -> (r: Option<i32>)
    ensures
        r == (match spec_invoke(*module, name@, u32s_of_args(args@)) {
            Some(v) => Some((s32_of_u32(v)) as i32),
            None => None::<i32>,
        }),
{
    let wanted = String::from_str(name);
    let ghost exports = module.exports@;
    let n = module.exports.len();
    let mut fidx_opt: Option<u32> = None;
    let mut k: usize = 0;
    let mut matched = false;
    proof {
        assert(exports.skip(0) =~= exports);
    }
    while k < n && !matched
        invariant
            k <= n,
            !matched ==> fidx_opt is None && find_export(exports, name@) == find_export(
                exports.skip(k as int),
                name@,
            ),
            matched ==> fidx_opt == find_export(exports, name@),
        decreases n - k + (if matched {
            0int
        } else {
            1int
        }),
    {
        proof {
            assert(exports.skip(k as int)[0] == exports[k as int]);
            assert(exports.skip(k as int).drop_first() =~= exports.skip(k + 1));
        }
        if module.exports[k].name.0 == wanted {
            matched = true;
            match &module.exports[k].desc {
                ExportDesc::Func(x) => {
                    fidx_opt = Some(x.0);
                },
                _ => {},
            }
        } else {
            k += 1;
        }
    }
    proof {
        if !matched {
            assert(exports.skip(n as int) =~= Seq::<super::syntax::modules::Export>::empty());
        }
    }
    let fidx = match fidx_opt {
        Some(x) => x,
        None => {
            return None;
        },
    };
    if !((fidx as usize) < module.funcs.len()) {
        return None;
    }
    let func = &module.funcs[fidx as usize];
    let mut locals: Vec<u32> = Vec::new();
    let na = args.len();
    for i in 0..na
        invariant
            locals@ == u32s_of_args(args@).take(i as int),
    {
        let v = args[i];
        let bits: u32 = if v >= 0 {
            v as u32
        } else {
            ((v as i64) + 0x1_0000_0000i64) as u32
        };
        locals.push(bits);
        proof {
            if v < 0 {
                assert((((v as i64) + 0x1_0000_0000i64) as u32) == (v as u32)) by (bit_vector)
                    requires
                        v < 0,
                ;
            }
            assert(bits == u32s_of_args(args@)[i as int]);
            assert(locals@ =~= u32s_of_args(args@).take(i + 1));
        }
    }
    let nl = func.locals.len();
    let ghost args_bits = u32s_of_args(args@);
    proof {
        assert(locals@ =~= args_bits);
    }
    for i in 0..nl
        invariant
            nl == func.locals@.len(),
            locals@.len() == args_bits.len() + i,
            locals@ =~= args_bits + Seq::new(i as nat, |j: int| 0u32),
    {
        locals.push(0);
        proof {
            assert(locals@ =~= args_bits + Seq::new((i + 1) as nat, |j: int| 0u32));
        }
    }
    let ghost locs = locals@;
    proof {
        assert(locs =~= args_bits + Seq::new(func.locals@.len(), |j: int| 0u32));
    }
    let body = &func.body.0;
    let nb = body.len();
    let mut stack: Vec<u32> = Vec::new();
    let ghost instrs = body@;
    proof {
        assert(instrs.skip(0) =~= instrs);
    }
    for i in 0..nb
        invariant
            nb == instrs.len(),
            body@ == instrs,
            locals@ == locs,
            exec_instrs(instrs.skip(i as int), locs, stack@) == exec_instrs(
                instrs,
                locs,
                Seq::empty(),
            ),
    {
        let ghost pre = stack@;
        proof {
            assert(instrs.skip(i as int)[0] == instrs[i as int]);
            assert(instrs.skip(i as int).drop_first() =~= instrs.skip(i + 1));
        }
        match &body[i] {
            Instr::I32Const(nv) => {
                stack.push(*nv);
            },
            Instr::LocalGet(x) => {
                if !((x.0 as usize) < locals.len()) {
                    return None;
                }
                stack.push(locals[x.0 as usize]);
            },
            Instr::I32Add => {
                if stack.len() < 2 {
                    return None;
                }
                let b = stack.pop().unwrap();
                let a = stack.pop().unwrap();
                let v = (((a as u64) + (b as u64)) % 0x1_0000_0000u64) as u32;
                stack.push(v);
                proof {
                    assert(v == u32_of_int(pre[pre.len() - 2] + pre[pre.len() - 1]));
                    assert(stack@ =~= pre.drop_last().drop_last().push(v));
                }
            },
            Instr::I32Sub => {
                if stack.len() < 2 {
                    return None;
                }
                let b = stack.pop().unwrap();
                let a = stack.pop().unwrap();
                let v = (((a as u64) + 0x1_0000_0000u64 - (b as u64)) % 0x1_0000_0000u64) as u32;
                stack.push(v);
                proof {
                    assert(v == u32_of_int(pre[pre.len() - 2] - pre[pre.len() - 1]));
                    assert(stack@ =~= pre.drop_last().drop_last().push(v));
                }
            },
            Instr::I32Mul => {
                if stack.len() < 2 {
                    return None;
                }
                let b = stack.pop().unwrap();
                let a = stack.pop().unwrap();
                proof {
                    assert((a as int) * (b as int) < 0x1_0000_0000_0000_0000) by (nonlinear_arith)
                        requires
                            a as int <= 0xffff_ffff,
                            b as int <= 0xffff_ffff,
                    ;
                }
                let v = (((a as u64) * (b as u64)) % 0x1_0000_0000u64) as u32;
                stack.push(v);
                proof {
                    assert(v == u32_of_int(pre[pre.len() - 2] * pre[pre.len() - 1]));
                    assert(stack@ =~= pre.drop_last().drop_last().push(v));
                }
            },
            Instr::Drop => {
                if stack.len() < 1 {
                    return None;
                }
                let _ = stack.pop().unwrap();
                proof {
                    assert(stack@ =~= pre.drop_last());
                }
            },
            _ => {
                return None;
            },
        }
    }
    proof {
        assert(instrs.skip(nb as int) =~= Seq::<Instr>::empty());
    }
    if stack.len() != 1 {
        return None;
    }
    let bits = stack[0];
    let signed: i32 = if bits <= 0x7fff_ffff {
        bits as i32
    } else {
        ((bits as i64) - 0x1_0000_0000i64) as i32
    };
    Some(signed)
}

} // verus!
