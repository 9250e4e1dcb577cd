use vstd::bytes::{
    lemma_auto_spec_u16_to_from_le_bytes, lemma_auto_spec_u32_to_from_le_bytes,
    lemma_auto_spec_u64_to_from_le_bytes, spec_u16_from_le_bytes, spec_u16_to_le_bytes,
    spec_u32_from_le_bytes, spec_u32_to_le_bytes, spec_u64_from_le_bytes, spec_u64_to_le_bytes,
    u16_to_le_bytes, u32_to_le_bytes, u64_to_le_bytes,
};
use vstd::prelude::*;
use vstd::utf8::encode_utf8;

use crate::ir::ast::common::literal::LiteralValue;
use crate::ir::ast::global::constant::ConstantDefinition;
use crate::ir::error::IRError;
use crate::platforms::linux::elf::object::{ELFObject, ObjectView};
use crate::platforms::linux::elf::section::SectionType;
use crate::platforms::linux::elf::symbol::{Symbol, SymbolBinding, SymbolType, SymbolView};

verus! {

/// The bytes that hold a constant: little-endian integers, the bit pattern of a float,
/// one byte for a boolean, UTF-8 and a NUL for a string.
pub open spec fn constant_bytes(value: LiteralValue) -> Seq<u8> {
    match value {
        LiteralValue::Int8(v) => seq![v as u8],
        LiteralValue::Int16(v) => spec_u16_to_le_bytes(v as u16),
        LiteralValue::Int32(v) => spec_u32_to_le_bytes(v as u32),
        LiteralValue::Int64(v) => spec_u64_to_le_bytes(v as u64),
        LiteralValue::Float64(bits) => spec_u64_to_le_bytes(bits),
        LiteralValue::Boolean(b) => seq![
            if b {
                1u8
            } else {
                0u8
            },
        ],
        LiteralValue::String(s) => encode_utf8(s@) + seq![0u8],
    }
}

/// The size the symbol of a constant records.
pub open spec fn constant_size(value: LiteralValue) -> usize {
    match value {
        LiteralValue::Int8(_) | LiteralValue::Boolean(_) => 1,
        LiteralValue::Int16(_) => 2,
        LiteralValue::Int32(_) => 4,
        LiteralValue::Int64(_) | LiteralValue::Float64(_) => 8,
        LiteralValue::String(s) => (encode_utf8(s@).len() as usize).wrapping_add(1),
    }
}

/// A constant: strings go to the read-only data, everything else to the data section,
/// under a global object symbol of the constant's name.
pub open spec fn spec_compile_constant(o: ObjectView, constant: ConstantDefinition) -> ObjectView {
    let bytes = constant_bytes(constant.value);
    let (section, offset, placed) = if constant.value is String {
        (SectionType::RoData, o.rodata.len() as usize, ObjectView { rodata: o.rodata + bytes, ..o })
    } else {
        (SectionType::Data, o.data.len() as usize, ObjectView { data: o.data + bytes, ..o })
    };
    placed.add_symbol(
        SymbolView {
            name: constant.constant_name.name@,
            section,
            offset,
            size: constant_size(constant.value),
            symbol_type: SymbolType::Object,
            binding: SymbolBinding::Global,
        },
    )
}

/// The value a constant's bytes give back when read as stored.
pub open spec fn reads_back(bytes: Seq<u8>, value: LiteralValue) -> bool {
    match value {
        LiteralValue::Int8(v) => bytes.len() == 1 && bytes[0] as i8 == v,
        LiteralValue::Int16(v) => bytes.len() == 2 && spec_u16_from_le_bytes(bytes) as i16 == v,
        LiteralValue::Int32(v) => bytes.len() == 4 && spec_u32_from_le_bytes(bytes) as i32 == v,
        LiteralValue::Int64(v) => bytes.len() == 8 && spec_u64_from_le_bytes(bytes) as i64 == v,
        LiteralValue::Float64(bits) => bytes.len() == 8 && spec_u64_from_le_bytes(bytes) == bits,
        LiteralValue::Boolean(b) => bytes.len() == 1 && (bytes[0] == 1) == b && bytes[0] <= 1,
        LiteralValue::String(s) => bytes == encode_utf8(s@) + seq![0u8],
    }
}

/// Constant law: a compiled constant gets a global symbol of its name at the end of the
/// table, and the bytes its symbol points at (its size of them, in the data section, or
/// in the read-only data for a string) read back as its value; nothing else of the
/// object changes.
pub proof fn lemma_constant_reads_back(o: ObjectView, constant: ConstantDefinition)
    requires
        o.data.len() <= usize::MAX,
        o.rodata.len() <= usize::MAX,
    ensures
        ({
            let o1 = spec_compile_constant(o, constant);
            let sym = o1.symbols.last();
            let section = if constant.value is String {
                o1.rodata
            } else {
                o1.data
            };
            &&& o1.symbols.len() == o.symbols.len() + 1
            &&& o1.symbols.drop_last() == o.symbols
            &&& sym.name == constant.constant_name.name@
            &&& sym.section == (if constant.value is String {
                SectionType::RoData
            } else {
                SectionType::Data
            })
            &&& o1.text == o.text
            &&& reads_back(section.subrange(sym.offset as int, section.len() as int), constant.value)
            &&& (constant.value is String ==> o1.data == o.data && o1.rodata.subrange(0, o.rodata.len() as int) == o.rodata)
            &&& (!(constant.value is String) ==> o1.rodata == o.rodata && o1.data.subrange(0, o.data.len() as int) == o.data)
        }),
{
    lemma_auto_spec_u16_to_from_le_bytes();
    lemma_auto_spec_u32_to_from_le_bytes();
    lemma_auto_spec_u64_to_from_le_bytes();
    let o1 = spec_compile_constant(o, constant);
    let bytes = constant_bytes(constant.value);
    match constant.value {
        LiteralValue::Int8(v) => {
            assert((v as u8) as i8 == v) by (bit_vector);
        },
        LiteralValue::Int16(v) => {
            assert(spec_u16_to_le_bytes(v as u16).len() == 2);
            assert(((v as u16) as i16) == v) by (bit_vector);
        },
        LiteralValue::Int32(v) => {
            assert(spec_u32_to_le_bytes(v as u32).len() == 4);
            assert(((v as u32) as i32) == v) by (bit_vector);
        },
        LiteralValue::Int64(v) => {
            assert(spec_u64_to_le_bytes(v as u64).len() == 8);
            assert(((v as u64) as i64) == v) by (bit_vector);
        },
        LiteralValue::Float64(bits) => {
            assert(spec_u64_to_le_bytes(bits).len() == 8);
        },
        _ => {},
    }
    if constant.value is String {
        assert(o1.rodata.subrange(o.rodata.len() as int, o1.rodata.len() as int) =~= bytes);
        assert(o1.rodata.subrange(0, o.rodata.len() as int) =~= o.rodata);
    } else {
        assert(o1.data.subrange(o.data.len() as int, o1.data.len() as int) =~= bytes);
        assert(o1.data.subrange(0, o.data.len() as int) =~= o.data);
    }
    assert(o1.symbols.drop_last() =~= o.symbols);
}

/// Places a global constant in the object and gives it a symbol.
pub fn compile_constant(constant: &ConstantDefinition, object: &mut ELFObject) -> (r: Result<
    (),
    IRError,
>)
    ensures
        r is Ok,
        final(object)@ == spec_compile_constant(old(object)@, *constant),
{
    let (section_type, offset, size) = match &constant.value {
        LiteralValue::Int8(val) => {
            let offset = object.data_len();
            object.append_data(&[*val as u8]);
            (SectionType::Data, offset, 1usize)
        },
        LiteralValue::Int16(val) => {
            let offset = object.data_len();
            let bytes = u16_to_le_bytes(*val as u16);
            object.append_data(bytes.as_slice());
            (SectionType::Data, offset, 2usize)
        },
        LiteralValue::Int32(val) => {
            let offset = object.data_len();
            let bytes = u32_to_le_bytes(*val as u32);
            object.append_data(bytes.as_slice());
            (SectionType::Data, offset, 4usize)
        },
        LiteralValue::Int64(val) => {
            let offset = object.data_len();
            let bytes = u64_to_le_bytes(*val as u64);
            object.append_data(bytes.as_slice());
            (SectionType::Data, offset, 8usize)
        },
        LiteralValue::Float64(bits) => {
            let offset = object.data_len();
            let bytes = u64_to_le_bytes(*bits);
            object.append_data(bytes.as_slice());
            (SectionType::Data, offset, 8usize)
        },
        LiteralValue::Boolean(val) => {
            let offset = object.data_len();
            let byte: u8 = if *val {
                1
            } else {
                0
            };
            object.append_data(&[byte]);
            (SectionType::Data, offset, 1usize)
        },
        LiteralValue::String(s) => {
            let offset = object.rodata_len();
            let bytes = s.as_str().as_bytes();
            object.append_rodata(bytes);
            object.append_rodata(&[0u8]);
            assert(object@.rodata =~= old(object)@.rodata + encode_utf8(s@) + seq![0u8]);
            (SectionType::RoData, offset, bytes.len().wrapping_add(1))
        },
    };
    proof {
        let bytes = constant_bytes(constant.value);
        if constant.value is String {
            assert(object@ =~= (ObjectView { rodata: old(object)@.rodata + bytes, ..old(object)@ }));
        } else {
            assert(object@ =~= (ObjectView { data: old(object)@.data + bytes, ..old(object)@ }));
        }
    }
    object.add_symbol(
        Symbol {
            name: constant.constant_name.name.clone(),
            section: section_type,
            offset,
            size,
            symbol_type: SymbolType::Object,
            binding: SymbolBinding::Global,
        },
    );
    Ok(())
}

} // verus!
