//! Encoding of modules: length-prefixed blocks, sections in their fixed
//! order, and the module header.
//!
//! Only the type, function, export and code sections are ever emitted;
//! a section whose backing sequence is empty is omitted entirely.

use vstd::prelude::*;
use vstd::utf8::encode_utf8;

use super::instructions::{expr_bytes, expr_supported};
use super::types::{func_type_bytes, val_type_byte};
use super::values::uleb;
use super::EncodeError;
use super::Emitter;
use crate::wasm::syntax::modules::{Export, ExportDesc, Func, Module};
use crate::wasm::syntax::types::{FuncType, ValType};
use crate::wasm::syntax::values::Name;

verus! {

/// A length-prefixed block: the byte length of the region as unsigned
/// LEB128, then the region itself.
pub open spec fn sized(p: Seq<u8>) -> Seq<u8> {
    uleb(p.len()) + p
}

/// A section: its id byte, then its payload as a length-prefixed block.
pub open spec fn section_bytes(id: u8, payload: Seq<u8>) -> Seq<u8> {
    seq![id] + sized(payload)
}

/// A name: its UTF-8 bytes as a length-prefixed block.
pub open spec fn name_bytes(n: Name) -> Seq<u8> {
    sized(encode_utf8(n.0@))
}

/// The four magic bytes and the four version bytes that begin every
/// module.
pub open spec fn header() -> Seq<u8> {
    seq![0x00u8, 0x61u8, 0x73u8, 0x6du8, 0x01u8, 0x00u8, 0x00u8, 0x00u8]
}

/// The concatenated encodings of a sequence of function types.
pub open spec fn func_types_bytes(ts: Seq<FuncType>) -> Seq<u8>
    decreases ts.len(),
{
    if ts.len() == 0 {
        Seq::empty()
    } else {
        func_types_bytes(ts.drop_last()) + func_type_bytes(ts.last())
    }
}

/// The payload and framing of the type section.
pub open spec fn type_sec_bytes(ts: Seq<FuncType>) -> Seq<u8> {
    section_bytes(1, uleb(ts.len()) + func_types_bytes(ts))
}

/// The concatenated type indices of a sequence of functions.
pub open spec fn func_idxs_bytes(fs: Seq<Func>) -> Seq<u8>
    decreases fs.len(),
{
    if fs.len() == 0 {
        Seq::empty()
    } else {
        func_idxs_bytes(fs.drop_last()) + uleb(fs.last().ty.0 as nat)
    }
}

/// The payload and framing of the function section.
pub open spec fn func_sec_bytes(fs: Seq<Func>) -> Seq<u8> {
    section_bytes(3, uleb(fs.len()) + func_idxs_bytes(fs))
}

/// The encoding of an export description: a one-byte tag, then the
/// referenced index.
pub open spec fn export_desc_bytes(d: ExportDesc) -> Seq<u8> {
    match d {
        ExportDesc::Func(x) => seq![0x00u8] + uleb(x.0 as nat),
        ExportDesc::Table(x) => seq![0x01u8] + uleb(x.0 as nat),
        ExportDesc::Mem(x) => seq![0x02u8] + uleb(x.0 as nat),
        ExportDesc::Global(x) => seq![0x03u8] + uleb(x.0 as nat),
    }
}

/// The encoding of one export: its name, then its description.
pub open spec fn export_bytes(e: Export) -> Seq<u8> {
    name_bytes(e.name) + export_desc_bytes(e.desc)
}

/// The concatenated encodings of a sequence of exports.
pub open spec fn exports_bytes(es: Seq<Export>) -> Seq<u8>
    decreases es.len(),
{
    if es.len() == 0 {
        Seq::empty()
    } else {
        exports_bytes(es.drop_last()) + export_bytes(es.last())
    }
}

/// The payload and framing of the export section.
pub open spec fn export_sec_bytes(es: Seq<Export>) -> Seq<u8> {
    section_bytes(7, uleb(es.len()) + exports_bytes(es))
}

/// The run-length encoding of a sequence of local declarations: maximal
/// runs of one value type, each with its length.
pub open spec fn local_runs(ls: Seq<ValType>) -> Seq<(nat, ValType)>
    decreases ls.len(),
{
    if ls.len() == 0 {
        Seq::empty()
    } else {
        let r = local_runs(ls.drop_last());
        if r.len() > 0 && r.last().1 == ls.last() {
            r.update(r.len() - 1, ((r.last().0 + 1) as nat, ls.last()))
        } else {
            r.push((1nat, ls.last()))
        }
    }
}

/// The concatenated encodings of local runs: each run is its length, then
/// the value type byte.
pub open spec fn runs_bytes(rs: Seq<(nat, ValType)>) -> Seq<u8>
    decreases rs.len(),
{
    if rs.len() == 0 {
        Seq::empty()
    } else {
        runs_bytes(rs.drop_last()) + (uleb(rs.last().0) + seq![val_type_byte(rs.last().1)])
    }
}

/// The encoding of a function's local declarations: the number of runs,
/// then the runs.
pub open spec fn locals_bytes(ls: Seq<ValType>) -> Seq<u8> {
    uleb(local_runs(ls).len()) + runs_bytes(local_runs(ls))
}

/// The code-section entry of one function: a length-prefixed block
/// holding its locals and its body.
pub open spec fn code_entry_bytes(f: Func) -> Seq<u8> {
    sized(locals_bytes(f.locals@) + expr_bytes(f.body))
}

/// The concatenated code entries of a sequence of functions.
pub open spec fn code_entries_bytes(fs: Seq<Func>) -> Seq<u8>
    decreases fs.len(),
{
    if fs.len() == 0 {
        Seq::empty()
    } else {
        code_entries_bytes(fs.drop_last()) + code_entry_bytes(fs.last())
    }
}

/// The payload and framing of the code section.
pub open spec fn code_sec_bytes(fs: Seq<Func>) -> Seq<u8> {
    section_bytes(10, uleb(fs.len()) + code_entries_bytes(fs))
}

/// Whether the encoder implements every instruction of a function body.
pub open spec fn func_supported(f: Func) -> bool {
    expr_supported(f.body)
}

/// Whether the encoder implements every instruction of a module.
pub open spec fn module_supported(m: Module) -> bool {
    forall|i: int| 0 <= i < m.funcs@.len() ==> func_supported(#[trigger] m.funcs@[i])
}

/// The full encoding of a module: the header, then the type, function,
/// export and code sections, each present only when its backing sequence
/// is non-empty.  No other section is ever emitted.
pub open spec fn module_bytes(m: Module) -> Seq<u8> {
    header() + (if m.types@.len() > 0 {
        type_sec_bytes(m.types@)
    } else {
        Seq::empty()
    }) + (if m.funcs@.len() > 0 {
        func_sec_bytes(m.funcs@)
    } else {
        Seq::empty()
    }) + (if m.exports@.len() > 0 {
        export_sec_bytes(m.exports@)
    } else {
        Seq::empty()
    }) + (if m.funcs@.len() > 0 {
        code_sec_bytes(m.funcs@)
    } else {
        Seq::empty()
    })
}

/// The encoding of a module depends on its types, functions and exports
/// alone: tables, memories, globals, element and data segments, a start
/// function and imports leave no trace in the byte stream, because the
/// import, table, memory, global, start, element and data sections are
/// never emitted.
pub proof fn lemma_encoding_ignores_unencoded_fields(m1: Module, m2: Module)
    requires
        m1.types@ == m2.types@,
        m1.funcs@ == m2.funcs@,
        m1.exports@ == m2.exports@,
    ensures
        module_bytes(m1) == module_bytes(m2),
        module_supported(m1) == module_supported(m2),
{
}

/// A module with no types, functions or exports encodes to exactly the
/// eight header bytes.
pub proof fn lemma_empty_module_bytes(m: Module)
    requires
        m.types@.len() == 0,
        m.funcs@.len() == 0,
        m.exports@.len() == 0,
    ensures
        module_bytes(m) == header(),
{
    assert(module_bytes(m) =~= header());
}

impl Emitter {
    /// Append a length-prefixed block: the byte length of the region,
    /// then the region verbatim.
    pub(crate) fn write_sized(&mut self, payload: &Vec<u8>) -> (r: Result<(), EncodeError>)
        ensures
            r is Ok,
            final(self).out@ == old(self).out@ + sized(payload@),
    {
        self.write_uleb(payload.len() as u64)?;
        self.write(payload.as_slice())?;
        proof {
            assert(self.out@ =~= old(self).out@ + sized(payload@));
        }
        Ok(())
    }

    /// Append one section: its id byte, then its payload as a
    /// length-prefixed block.
    pub(crate) fn emit_section(&mut self, id: u8, payload: &Vec<u8>) -> (r: Result<
        (),
        EncodeError,
    >)
        ensures
            r is Ok,
            final(self).out@ == old(self).out@ + section_bytes(id, payload@),
    {
        self.out.push(id);
        self.write_sized(payload)?;
        proof {
            assert(self.out@ =~= old(self).out@ + section_bytes(id, payload@));
        }
        Ok(())
    }

    /// Append a name as a length-prefixed UTF-8 byte sequence.
    pub(crate) fn write_name(&mut self, name: &Name) -> (r: Result<(), EncodeError>)
        ensures
            r is Ok,
            final(self).out@ == old(self).out@ + name_bytes(*name),
    {
        let bytes = name.0.as_str().as_bytes();
        self.write_uleb(bytes.len() as u64)?;
        self.write(bytes)?;
        proof {
            assert(self.out@ =~= old(self).out@ + name_bytes(*name));
        }
        Ok(())
    }

    /// Append the type section.
    pub(crate) fn emit_type_sec(&mut self, types: &Vec<FuncType>) -> (r: Result<(), EncodeError>)
        ensures
            r is Ok,
            final(self).out@ == old(self).out@ + type_sec_bytes(types@),
    {
        let mut sub = Emitter::new();
        let n = types.len();
        sub.write_uleb(n as u64)?;
        for i in 0..n
            invariant
                n == types@.len(),
                sub.out@ == uleb(types@.len()) + func_types_bytes(types@.take(i as int)),
        {
            sub.emit_func_type(&types[i])?;
            proof {
                assert(types@.take(i + 1).drop_last() =~= types@.take(i as int));
                assert(sub.out@ =~= uleb(types@.len()) + func_types_bytes(types@.take(i + 1)));
            }
        }
        proof {
            assert(types@.take(n as int) =~= types@);
        }
        self.emit_section(1, &sub.out)
    }

    /// The import section is never emitted: the supported subset declares
    /// no imports.
    pub(crate) fn emit_import_sec(&mut self) -> (r: Result<(), EncodeError>)
        ensures
            r is Ok,
            final(self).out@ == old(self).out@,
    {
        Ok(())
    }

    /// Append the function section: each function's type index.
    pub(crate) fn emit_func_sec(&mut self, funcs: &Vec<Func>) -> (r: Result<(), EncodeError>)
        ensures
            r is Ok,
            final(self).out@ == old(self).out@ + func_sec_bytes(funcs@),
    {
        let mut sub = Emitter::new();
        let n = funcs.len();
        sub.write_uleb(n as u64)?;
        for i in 0..n
            invariant
                n == funcs@.len(),
                sub.out@ == uleb(funcs@.len()) + func_idxs_bytes(funcs@.take(i as int)),
        {
            sub.write_uleb(funcs[i].ty.0 as u64)?;
            proof {
                assert(funcs@.take(i + 1).drop_last() =~= funcs@.take(i as int));
                assert(sub.out@ =~= uleb(funcs@.len()) + func_idxs_bytes(funcs@.take(i + 1)));
            }
        }
        proof {
            assert(funcs@.take(n as int) =~= funcs@);
        }
        self.emit_section(3, &sub.out)
    }

    /// The table section is never emitted: the supported subset declares
    /// no tables.
    pub(crate) fn emit_table_sec(&mut self) -> (r: Result<(), EncodeError>)
        ensures
            r is Ok,
            final(self).out@ == old(self).out@,
    {
        Ok(())
    }

    /// The memory section is never emitted: the supported subset declares
    /// no memories.
    pub(crate) fn emit_mem_sec(&mut self) -> (r: Result<(), EncodeError>)
        ensures
            r is Ok,
            final(self).out@ == old(self).out@,
    {
        Ok(())
    }

    /// The global section is never emitted: the supported subset declares
    /// no globals.
    pub(crate) fn emit_global_sec(&mut self) -> (r: Result<(), EncodeError>)
        ensures
            r is Ok,
            final(self).out@ == old(self).out@,
    {
        Ok(())
    }

    /// Append the export section: each export's name, descriptor tag and
    /// index.
    #[verifier::rlimit(50)]
    pub(crate) fn emit_export_sec(&mut self, exports: &Vec<Export>) -> (r: Result<(), EncodeError>)
        ensures
            r is Ok,
            final(self).out@ == old(self).out@ + export_sec_bytes(exports@),
    {
        let mut sub = Emitter::new();
        let n = exports.len();
        sub.write_uleb(n as u64)?;
        for i in 0..n
            invariant
                n == exports@.len(),
                sub.out@ == uleb(exports@.len()) + exports_bytes(exports@.take(i as int)),
        {
            sub.write_name(&exports[i].name)?;
            match &exports[i].desc {
                ExportDesc::Func(x) => {
                    sub.out.push(0x00);
                    sub.write_uleb(x.0 as u64)?;
                },
                ExportDesc::Table(x) => {
                    sub.out.push(0x01);
                    sub.write_uleb(x.0 as u64)?;
                },
                ExportDesc::Mem(x) => {
                    sub.out.push(0x02);
                    sub.write_uleb(x.0 as u64)?;
                },
                ExportDesc::Global(x) => {
                    sub.out.push(0x03);
                    sub.write_uleb(x.0 as u64)?;
                },
            }
            proof {
                assert(exports@.take(i + 1).drop_last() =~= exports@.take(i as int));
                assert(sub.out@ =~= uleb(exports@.len()) + exports_bytes(exports@.take(i + 1)));
            }
        }
        proof {
            assert(exports@.take(n as int) =~= exports@);
        }
        self.emit_section(7, &sub.out)
    }

    /// The start section is never emitted: the supported subset declares
    /// no start function.
    pub(crate) fn emit_start_sec(&mut self) -> (r: Result<(), EncodeError>)
        ensures
            r is Ok,
            final(self).out@ == old(self).out@,
    {
        Ok(())
    }

    /// The element section is never emitted: the supported subset
    /// declares no element segments.
    pub(crate) fn emit_elem_sec(&mut self) -> (r: Result<(), EncodeError>)
        ensures
            r is Ok,
            final(self).out@ == old(self).out@,
    {
        Ok(())
    }

    /// Append the code section: one length-prefixed entry per function,
    /// holding its run-length-encoded locals, its body and the end byte.
    pub(crate) fn emit_code_sec(&mut self, funcs: &Vec<Func>) -> (r: Result<(), EncodeError>)
        ensures
            (forall|i: int| 0 <= i < funcs@.len() ==> func_supported(#[trigger] funcs@[i]))
                ==> r is Ok && final(self).out@ == old(self).out@ + code_sec_bytes(funcs@),
            !(forall|i: int| 0 <= i < funcs@.len() ==> func_supported(#[trigger] funcs@[i]))
                ==> r == Result::<(), EncodeError>::Err(EncodeError::UnsupportedInstr),
    {
        let mut sub = Emitter::new();
        let n = funcs.len();
        sub.write_uleb(n as u64)?;
        for i in 0..n
            invariant
                n == funcs@.len(),
                sub.out@ == uleb(funcs@.len()) + code_entries_bytes(funcs@.take(i as int)),
                forall|j: int| 0 <= j < i ==> func_supported(#[trigger] funcs@[j]),
        {
            let func = &funcs[i];
            let mut body = Emitter::new();
            // Run-length encode the locals.
            let mut chunks: Vec<(u64, ValType)> = Vec::new();
            let ghost ls = func.locals@;
            let m = func.locals.len();
            for k in 0..m
                invariant
                    m == ls.len(),
                    func.locals@ == ls,
                    chunks@.len() == local_runs(ls.take(k as int)).len(),
                    forall|j: int|
                        0 <= j < chunks@.len() ==> local_runs(ls.take(k as int))[j] == (
                        #[trigger] chunks@[j].0 as nat,
                        chunks@[j].1,
                    ),
                    forall|j: int| 0 <= j < chunks@.len() ==> #[trigger] chunks@[j].0 <= k,
            {
                let cur = func.locals[k];
                proof {
                    assert(ls.take(k + 1).drop_last() =~= ls.take(k as int));
                }
                if chunks.len() > 0 && chunks[chunks.len() - 1].1 == cur {
                    let last = chunks.pop().unwrap();
                    chunks.push((last.0 + 1, last.1));
                    proof {
                        let runs = local_runs(ls.take(k + 1));
                        assert(chunks@.len() == runs.len());
                        assert(forall|j: int|
                            0 <= j < chunks@.len() ==> runs[j] == (#[trigger] chunks@[j].0 as nat,
                            chunks@[j].1,
                            ));
                    }
                } else {
                    chunks.push((1, cur));
                }
            }
            proof {
                assert(ls.take(m as int) =~= ls);
            }
            // Emit run count, the runs, the body, and frame the entry.
            body.write_uleb(chunks.len() as u64)?;
            let ghost runs = local_runs(ls);
            let c = chunks.len();
            for k in 0..c
                invariant
                    c == chunks@.len(),
                    c == runs.len(),
                    forall|j: int|
                        0 <= j < chunks@.len() ==> runs[j] == (#[trigger] chunks@[j].0 as nat,
                        chunks@[j].1,
                        ),
                    body.out@ == uleb(runs.len()) + runs_bytes(runs.take(k as int)),
            {
                body.write_uleb(chunks[k].0)?;
                body.emit_val_type(&chunks[k].1)?;
                proof {
                    assert(runs.take(k + 1).drop_last() =~= runs.take(k as int));
                    assert(body.out@ =~= uleb(runs.len()) + runs_bytes(runs.take(k + 1)));
                }
            }
            proof {
                assert(runs.take(c as int) =~= runs);
            }
            match body.emit_expr(&func.body) {
                Ok(()) => {},
                Err(e) => {
                    proof {
                        assert(!func_supported(funcs@[i as int]));
                    }
                    return Err(e);
                },
            }
            sub.write_sized(&body.out)?;
            proof {
                assert(funcs@.take(i + 1).drop_last() =~= funcs@.take(i as int));
                assert(body.out@ =~= locals_bytes(ls) + expr_bytes(funcs@[i as int].body));
                assert(sub.out@ =~= uleb(funcs@.len()) + code_entries_bytes(funcs@.take(i + 1)));
            }
        }
        proof {
            assert(funcs@.take(n as int) =~= funcs@);
        }
        self.emit_section(10, &sub.out)
    }

    /// The data section is never emitted: the supported subset declares
    /// no data segments.
    pub(crate) fn emit_data_sec(&mut self) -> (r: Result<(), EncodeError>)
        ensures
            r is Ok,
            final(self).out@ == old(self).out@,
    {
        Ok(())
    }

    /// Append the encoding of a whole module: the header, then every
    /// section in the fixed section order; sections with nothing to hold
    /// are omitted entirely.
    pub fn emit_module(&mut self, module: &Module) -> (r: Result<(), EncodeError>)
        ensures
            module_supported(*module) ==> r is Ok && final(self).out@ == old(self).out@
                + module_bytes(*module),
            !module_supported(*module) ==> r == Result::<(), EncodeError>::Err(
                EncodeError::UnsupportedInstr,
            ),
    {
        // Magic and version.
        self.out.push(0x00);
        self.out.push(0x61);
        self.out.push(0x73);
        self.out.push(0x6d);
        self.out.push(0x01);
        self.out.push(0x00);
        self.out.push(0x00);
        self.out.push(0x00);
        proof {
            assert(self.out@ =~= old(self).out@ + header());
        }
        if !module.types.is_empty() {
            self.emit_type_sec(&module.types)?;
        }
        self.emit_import_sec()?;
        if !module.funcs.is_empty() {
            self.emit_func_sec(&module.funcs)?;
        }
        self.emit_table_sec()?;
        self.emit_mem_sec()?;
        self.emit_global_sec()?;
        if !module.exports.is_empty() {
            self.emit_export_sec(&module.exports)?;
        }
        self.emit_start_sec()?;
        self.emit_elem_sec()?;
        if !module.funcs.is_empty() {
            match self.emit_code_sec(&module.funcs) {
                Ok(()) => {},
                Err(e) => {
                    return Err(e);
                },
            }
        }
        self.emit_data_sec()?;
        proof {
            assert(self.out@ =~= old(self).out@ + module_bytes(*module));
        }
        Ok(())
    }
}

} // verus!
