use vstd::prelude::*;
use std::collections::HashMap;
use crate::error::IDLError;
use crate::names::{camel_of, snake_of, to_camel, to_snake};
use crate::pretty_writer::{indent_spaces, PrettyWriter};
use crate::types::{AtomType, BackendConfig, DataType, DataTypeRef, FuncDecl, Ident, Module,
    Named, StructMember, Target};

verus! {

broadcast use vstd::std_specs::hash::group_hash_axioms;

/// The token this backend emits for each atomic kind, together with the
/// atomic type table's totality: every kind has an entry, and adding a kind
/// breaks the match at compile time rather than falling through.
///
/// One entry is asymmetric on purpose: the 8-bit signed kind maps to the
/// 32-bit signed token while its sibling kinds map width-for-width. The
/// widening is a reviewed portability decision inherited by every consumer
/// of this table, not a fallback; see `lemma_signed_byte_widened`.
pub open spec fn atom_token(atom_type: AtomType) -> Seq<char> {
    match atom_type {
        AtomType::Bool => "bool"@,
        AtomType::U8 => "u8"@,
        AtomType::U16 => "u16"@,
        AtomType::U32 => "u32"@,
        AtomType::U64 => "u64"@,
        AtomType::I8 => "i32"@,
        AtomType::I16 => "i16"@,
        AtomType::I32 => "i32"@,
        AtomType::I64 => "i64"@,
        AtomType::F32 => "f32"@,
        AtomType::F64 => "f64"@,
    }
}

/// Whether `data_type_ref` can be resolved against the registry `defined`:
/// atoms always can, a reference to a declaration only once that
/// declaration's identifier has been registered.
pub open spec fn ref_resolvable(defined: Map<u64, Seq<char>>, data_type_ref: DataTypeRef) -> bool {
    match data_type_ref {
        DataTypeRef::Atom(_) => true,
        DataTypeRef::Defined(id) => defined.contains_key(id.key),
    }
}

/// The host-language token a resolvable reference denotes: the atomic type
/// table's entry for an atom, the registered name for a declaration.
pub open spec fn ref_token(defined: Map<u64, Seq<char>>, data_type_ref: DataTypeRef) -> Seq<char>
    recommends
        ref_resolvable(defined, data_type_ref),
{
    match data_type_ref {
        DataTypeRef::Atom(a) => atom_token(a),
        DataTypeRef::Defined(id) => defined[id.key],
    }
}

/// The concatenation of a sequence of already-rendered lines, in order.
pub open spec fn concat_lines(lines: Seq<Seq<char>>) -> Seq<char>
    decreases lines.len(),
{
    if lines.len() == 0 {
        Seq::<char>::empty()
    } else {
        concat_lines(lines.drop_last()) + lines.last()
    }
}

/// The body of a struct member's line: `name: Type,` with the field name in
/// the field convention and the type resolved against `defined`.
pub open spec fn member_body(defined: Map<u64, Seq<char>>, m: StructMember) -> Seq<char> {
    snake_of(m.name@) + ": "@ + ref_token(defined, m.type_) + ","@
}

/// The line a struct member is emitted as: its body one nesting level deep.
pub open spec fn member_line(defined: Map<u64, Seq<char>>, m: StructMember) -> Seq<char> {
    indent_spaces(1) + member_body(defined, m) + "\n"@
}

/// The member lines of a struct body, one per member, in declared order.
pub open spec fn member_line_seq(defined: Map<u64, Seq<char>>, members: Seq<StructMember>)
    -> Seq<Seq<char>> {
    Seq::new(members.len(), |i: int| member_line(defined, members[i]))
}

/// The line an enum variant is emitted as: one nesting level deep, the
/// variant name in the type-name convention, followed by a comma.
pub open spec fn variant_line(name: Seq<char>) -> Seq<char> {
    indent_spaces(1) + camel_of(name) + ","@ + "\n"@
}

/// The variant lines of an enum body, one per variant, in declared order.
pub open spec fn variant_line_seq(variants: Seq<String>) -> Seq<Seq<char>> {
    Seq::new(variants.len(), |i: int| variant_line(variants[i]@))
}

/// Order preservation at the line level: rendering one more line appends
/// exactly that line after everything rendered before it.
pub proof fn lemma_concat_lines_snoc(lines: Seq<Seq<char>>, i: int)
    requires
        0 <= i < lines.len(),
    ensures
        concat_lines(lines.take(i + 1)) == concat_lines(lines.take(i)) + lines[i],
{
    assert(lines.take(i + 1).drop_last() =~= lines.take(i));
    assert(lines.take(i + 1).last() == lines[i]);
}

/// Whether an alias declaration can be emitted against registry `defined`:
/// its target must already resolve and its own identifier must be fresh.
pub open spec fn alias_ok(defined: Map<u64, Seq<char>>, entry: Named<DataType>) -> bool {
    match entry.entity {
        DataType::Alias { to } => ref_resolvable(defined, to) && !defined.contains_key(
            entry.id.key,
        ),
        _ => false,
    }
}

/// The failure an alias emission reports, in the order the operation works:
/// wrong declaration kind, then an unresolved target, then a duplicate name.
pub open spec fn alias_err(defined: Map<u64, Seq<char>>, entry: Named<DataType>) -> IDLError
    recommends
        !alias_ok(defined, entry),
{
    match entry.entity {
        DataType::Alias { to } => if !ref_resolvable(defined, to) {
            IDLError::UnresolvedReference
        } else {
            IDLError::DuplicateDefinition
        },
        _ => IDLError::VariantMismatch,
    }
}

/// The text a successful alias emission appends.
pub open spec fn alias_text(defined: Map<u64, Seq<char>>, entry: Named<DataType>) -> Seq<char> {
    match entry.entity {
        DataType::Alias { to } => alias_decl_text(camel_of(entry.name@), ref_token(defined, to)),
        _ => Seq::<char>::empty(),
    }
}

/// The registry after a declaration is emitted: its identifier now resolves
/// to its type-name-cased declared name.
pub open spec fn defined_after(defined: Map<u64, Seq<char>>, entry: Named<DataType>) -> Map<
    u64,
    Seq<char>,
> {
    defined.insert(entry.id.key, camel_of(entry.name@))
}

/// Whether a struct declaration can be emitted against registry `defined`:
/// its identifier must be fresh, and every member's type must resolve once
/// the struct's own name is registered (so self-references are legal).
pub open spec fn struct_ok(defined: Map<u64, Seq<char>>, entry: Named<DataType>) -> bool {
    match entry.entity {
        DataType::Struct { members } => !defined.contains_key(entry.id.key) && (forall|i: int|
            0 <= i < members@.len() ==> ref_resolvable(
                defined_after(defined, entry),
                (#[trigger] members@[i]).type_,
            )),
        _ => false,
    }
}

/// The failure a struct emission reports, in the order the operation works:
/// wrong declaration kind, then a duplicate name, then an unresolved member.
pub open spec fn struct_err(defined: Map<u64, Seq<char>>, entry: Named<DataType>) -> IDLError
    recommends
        !struct_ok(defined, entry),
{
    match entry.entity {
        DataType::Struct { .. } => if defined.contains_key(entry.id.key) {
            IDLError::DuplicateDefinition
        } else {
            IDLError::UnresolvedReference
        },
        _ => IDLError::VariantMismatch,
    }
}

/// The text a successful struct emission appends; member types resolve
/// against the registry as it stands after the struct's own definition.
pub open spec fn struct_text(defined: Map<u64, Seq<char>>, entry: Named<DataType>) -> Seq<char> {
    match entry.entity {
        DataType::Struct { members } => struct_decl_text(
            defined_after(defined, entry),
            camel_of(entry.name@),
            members@,
        ),
        _ => Seq::<char>::empty(),
    }
}

/// Whether an enum declaration can be emitted against registry `defined`:
/// only its own identifier must be fresh; variants reference nothing.
pub open spec fn enum_ok(defined: Map<u64, Seq<char>>, entry: Named<DataType>) -> bool {
    match entry.entity {
        DataType::Enum { .. } => !defined.contains_key(entry.id.key),
        _ => false,
    }
}

/// The failure an enum emission reports.
pub open spec fn enum_err(defined: Map<u64, Seq<char>>, entry: Named<DataType>) -> IDLError
    recommends
        !enum_ok(defined, entry),
{
    match entry.entity {
        DataType::Enum { .. } => IDLError::DuplicateDefinition,
        _ => IDLError::VariantMismatch,
    }
}

/// The text a successful enum emission appends.
pub open spec fn enum_text(entry: Named<DataType>) -> Seq<char> {
    match entry.entity {
        DataType::Enum { variants } => enum_decl_text(camel_of(entry.name@), variants@),
        _ => Seq::<char>::empty(),
    }
}

/// The word naming a declaration's kind in its header comment.
pub open spec fn kind_token(entity: DataType) -> Seq<char> {
    match entity {
        DataType::Alias { .. } => "alias"@,
        DataType::Struct { .. } => "struct"@,
        DataType::Enum { .. } => "enum"@,
    }
}

/// The header comment emitted ahead of a declaration.
pub open spec fn header_text(data_type_entry: Named<DataType>) -> Seq<char> {
    "/// "@ + data_type_entry.name@ + ": "@ + kind_token(data_type_entry.entity) + "\n"@
}

/// The text of an emitted alias declaration: a transparent binding of the
/// new name to the resolved target token, followed by a block break.
pub open spec fn alias_decl_text(typename: Seq<char>, target_token: Seq<char>) -> Seq<char> {
    "type "@ + typename + " = "@ + target_token + ";"@ + "\n"@ + "\n"@
}

/// The text of an emitted struct declaration: an explicit C-ABI layout
/// request, then the members exactly in declared order, then a block break.
/// `defined` is the registry the member types resolve against (it already
/// holds the struct's own name, so self-references resolve).
pub open spec fn struct_decl_text(defined: Map<u64, Seq<char>>, typename: Seq<char>,
    members: Seq<StructMember>) -> Seq<char> {
    "#[repr(C)]"@ + "\n"@ + "struct "@ + typename + " {"@ + "\n"@
        + concat_lines(member_line_seq(defined, members)) + "}"@ + "\n"@ + "\n"@
}

/// The text of an emitted enum declaration: an explicit representation
/// request and comparison derives, then the variants exactly in declared
/// order, then a block break.
pub open spec fn enum_decl_text(typename: Seq<char>, variants: Seq<String>) -> Seq<char> {
    "#[repr(C)]"@ + "\n"@ + "#[derive(Debug, PartialEq, Eq, PartialOrd, Ord)]"@ + "\n"@
        + "enum "@ + typename + " {"@ + "\n"@ + concat_lines(variant_line_seq(variants))
        + "}"@ + "\n"@ + "\n"@
}

/// Whether a declaration of any kind can be emitted against `defined`.
pub open spec fn decl_ok(defined: Map<u64, Seq<char>>, entry: Named<DataType>) -> bool {
    alias_ok(defined, entry) || struct_ok(defined, entry) || enum_ok(defined, entry)
}

/// The failure a declaration's emission reports, by its kind.
pub open spec fn decl_err(defined: Map<u64, Seq<char>>, entry: Named<DataType>) -> IDLError
    recommends
        !decl_ok(defined, entry),
{
    match entry.entity {
        DataType::Alias { .. } => alias_err(defined, entry),
        DataType::Struct { .. } => struct_err(defined, entry),
        DataType::Enum { .. } => enum_err(defined, entry),
    }
}

/// The text one successfully processed declaration contributes: its header
/// comment followed by its declaration body.
pub open spec fn decl_text(defined: Map<u64, Seq<char>>, entry: Named<DataType>) -> Seq<char> {
    header_text(entry) + match entry.entity {
        DataType::Alias { .. } => alias_text(defined, entry),
        DataType::Struct { .. } => struct_text(defined, entry),
        DataType::Enum { .. } => enum_text(entry),
    }
}

/// One generation pass over a sequence of declarations, as a mathematical
/// fold: processing threads the registry and appends each declaration's
/// text in order, and stops at the first invariant violation. The output
/// is a function of the declarations alone.
pub open spec fn run_data_types(
    defined: Map<u64, Seq<char>>,
    output: Seq<char>,
    decls: Seq<Named<DataType>>,
) -> Result<(Map<u64, Seq<char>>, Seq<char>), IDLError>
    decreases decls.len(),
{
    if decls.len() == 0 {
        Ok((defined, output))
    } else if decl_ok(defined, decls[0]) {
        run_data_types(
            defined_after(defined, decls[0]),
            output + decl_text(defined, decls[0]),
            decls.skip(1),
        )
    } else {
        Err(decl_err(defined, decls[0]))
    }
}

/// What one whole generation session over a module yields: the data type
/// declarations processed in the driver-supplied order against a registry
/// that starts empty, and a capability refusal if the module asks for
/// function-declaration emission this backend does not offer.
pub open spec fn module_output(module: Module) -> Result<Seq<char>, IDLError> {
    match run_data_types(Map::<u64, Seq<char>>::empty(), Seq::<char>::empty(),
        module.data_types@) {
        Ok((defined, output)) => if module.func_decls@.len() > 0 {
            Err(IDLError::NotImplemented)
        } else {
            Ok(output)
        },
        Err(e) => Err(e),
    }
}

/// Generator emitting Rust-host declarations from a resolved type graph.
///
/// `defined` is the session's registry: it files, under each processed
/// declaration's identifier, the host-language name that declaration was
/// emitted as. It starts empty, gains exactly one entry per declaration,
/// and is never consulted across sessions. `w` is the session's output
/// sink; between operations it always sits at the outermost depth.
pub struct RustGenerator {
    pub target: Target,
    pub backend_config: BackendConfig,
    pub defined: HashMap<u64, String>,
    pub w: PrettyWriter,
}

impl RustGenerator {
    /// The registry as a mathematical map from identifier to emitted name.
    pub open spec fn defined_view(&self) -> Map<u64, Seq<char>> {
        self.defined@.map_values(|s: String| s@)
    }

    /// Everything emitted so far.
    pub open spec fn output(&self) -> Seq<char> {
        self.w.buf@
    }

    /// Between operations the sink sits at the outermost depth.
    pub open spec fn wf(&self) -> bool {
        self.w.depth == 0
    }

    /// A fresh generator for one session: empty registry, empty output.
    pub fn new(target: Target, backend_config: BackendConfig) -> (r: Self)
        ensures
            r.wf(),
            r.target == target,
            r.backend_config == backend_config,
            r.defined_view() == Map::<u64, Seq<char>>::empty(),
            r.output() == Seq::<char>::empty(),
    {
        let r = RustGenerator {
            target,
            backend_config,
            defined: HashMap::new(),
            w: PrettyWriter::new(),
        };
        proof {
            assert(r.defined_view() =~= Map::<u64, Seq<char>>::empty());
        }
        r
    }

    /// The atomic type table (see `atom_token` for the deliberate widening
    /// of the 8-bit signed kind).
    pub fn atom_name(atom_type: &AtomType) -> (r: &'static str)
        ensures
            r@ == atom_token(*atom_type),
    {
        match atom_type {
            AtomType::Bool => "bool",
            AtomType::U8 => "u8",
            AtomType::U16 => "u16",
            AtomType::U32 => "u32",
            AtomType::U64 => "u64",
            AtomType::I8 => "i32",
            AtomType::I16 => "i16",
            AtomType::I32 => "i32",
            AtomType::I64 => "i64",
            AtomType::F32 => "f32",
            AtomType::F64 => "f64",
        }
    }

    /// Registers that `data_type_entry`'s identifier resolves to its
    /// type-name-cased declared name from now on, and hands that name back.
    /// Registering the same identifier twice is an internal invariant
    /// violation: the registry is left untouched and nothing is emitted.
    pub fn define_name(&mut self, data_type_entry: &Named<DataType>) -> (r: Result<
        String,
        IDLError,
    >)
        ensures
            final(self).target == old(self).target,
            final(self).backend_config == old(self).backend_config,
            final(self).w == old(self).w,
            old(self).defined_view().contains_key(data_type_entry.id.key) ==> {
                &&& r matches Err(e) && e == IDLError::DuplicateDefinition
                &&& final(self).defined_view() == old(self).defined_view()
            },
            !old(self).defined_view().contains_key(data_type_entry.id.key) ==> {
                &&& r matches Ok(name) && name@ == camel_of(data_type_entry.name@)
                &&& final(self).defined_view() == old(self).defined_view().insert(
                    data_type_entry.id.key,
                    camel_of(data_type_entry.name@),
                )
            },
    {
        if self.defined.contains_key(&data_type_entry.id.key) {
            return Err(IDLError::DuplicateDefinition);
        }
        let typename = to_camel(data_type_entry.name.as_str());
        self.defined.insert(data_type_entry.id.key, typename.clone());
        proof {
            assert(final(self).defined_view() =~= old(self).defined_view().insert(
                data_type_entry.id.key,
                camel_of(data_type_entry.name@),
            ));
        }
        Ok(typename)
    }

    /// Resolves a type reference to the host-language token it denotes:
    /// atoms through the atomic type table, declaration references through
    /// the registry. An unregistered identifier means the driver broke
    /// dependency order; the lookup reports it as an internal invariant
    /// violation.
    pub fn get_defined_name<'a>(&'a self, data_type_ref: &DataTypeRef) -> (r: Result<
        &'a str,
        IDLError,
    >)
        ensures
            r is Ok <==> ref_resolvable(self.defined_view(), *data_type_ref),
            r matches Ok(name) ==> name@ == ref_token(self.defined_view(), *data_type_ref),
            r matches Err(e) ==> e == IDLError::UnresolvedReference,
    {
        match data_type_ref {
            DataTypeRef::Defined(id) => match self.defined.get(&id.key) {
                Some(name) => Ok(name.as_str()),
                None => Err(IDLError::UnresolvedReference),
            },
            DataTypeRef::Atom(a) => Ok(Self::atom_name(a)),
        }
    }

    /// Emits the human-readable marker comment ahead of a declaration.
    /// Side effect on the sink only: no registry mutation, always succeeds.
    pub fn gen_type_header(&mut self, _module: &Module, data_type_entry: &Named<DataType>) -> (r:
        Result<(), IDLError>)
        requires
            old(self).wf(),
        ensures
            final(self).wf(),
            final(self).target == old(self).target,
            final(self).backend_config == old(self).backend_config,
            final(self).defined_view() == old(self).defined_view(),
            final(self).output() == old(self).output() + header_text(*data_type_entry),
            r is Ok,
    {
        let mut line = String::from_str("/// ");
        line.append(data_type_entry.name.as_str());
        line.append(": ");
        let kind: &str = match &data_type_entry.entity {
            DataType::Alias { .. } => "alias",
            DataType::Struct { .. } => "struct",
            DataType::Enum { .. } => "enum",
        };
        line.append(kind);
        self.w.write_line(line.as_str());
        proof {
            assert(final(self).output() =~= old(self).output() + header_text(*data_type_entry));
        }
        Ok(())
    }

    /// Whether this backend can emit function declarations. It cannot: the
    /// capability is optional, and a driver should query it and skip or
    /// substitute rather than run into the refusal.
    pub fn supports_functions(&self) -> (r: bool)
        ensures
            r == false,
    {
        false
    }

    /// Function-declaration emission is an optional capability this backend
    /// does not implement: it refuses with `NotImplemented` and emits
    /// nothing, partial or otherwise.
    pub fn gen_function(&mut self, _module: &Module, _func_decl_entry: &Named<FuncDecl>) -> (r:
        Result<(), IDLError>)
        ensures
            *final(self) == *old(self),
            r matches Err(e) && e == IDLError::NotImplemented,
    {
        Err(IDLError::NotImplemented)
    }

    /// Emits a transparent alias declaration: resolves the aliased target,
    /// then registers the alias's own name, then binds the new name to the
    /// resolved token. On any failure the registry and the output are left
    /// exactly as they were.
    pub fn gen_alias(&mut self, _module: &Module, data_type_entry: &Named<DataType>) -> (r: Result<
        (),
        IDLError,
    >)
        requires
            old(self).wf(),
        ensures
            final(self).wf(),
            final(self).target == old(self).target,
            final(self).backend_config == old(self).backend_config,
            r is Ok <==> alias_ok(old(self).defined_view(), *data_type_entry),
            r is Ok ==> {
                &&& final(self).defined_view() == defined_after(
                    old(self).defined_view(),
                    *data_type_entry,
                )
                &&& final(self).output() == old(self).output() + alias_text(
                    old(self).defined_view(),
                    *data_type_entry,
                )
            },
            r matches Err(e) ==> {
                &&& e == alias_err(old(self).defined_view(), *data_type_entry)
                &&& final(self).defined_view() == old(self).defined_view()
                &&& final(self).output() == old(self).output()
            },
    {
        let to = match &data_type_entry.entity {
            DataType::Alias { to } => to,
            _ => {
                return Err(IDLError::VariantMismatch);
            },
        };
        let pointee_name: String = match self.get_defined_name(to) {
            Ok(name) => String::from_str(name),
            Err(e) => {
                return Err(e);
            },
        };
        let typename: String = match self.define_name(data_type_entry) {
            Ok(name) => name,
            Err(e) => {
                return Err(e);
            },
        };
        let mut line = String::from_str("type ");
        line.append(typename.as_str());
        line.append(" = ");
        line.append(pointee_name.as_str());
        line.append(";");
        self.w.write_line(line.as_str());
        self.w.eob();
        proof {
            assert(final(self).output() =~= old(self).output() + alias_text(
                old(self).defined_view(),
                *data_type_entry,
            ));
        }
        Ok(())
    }

    /// Emits a struct declaration: registers the struct's own name first, so
    /// self-referential members and later siblings can resolve it, then
    /// emits an explicit C-ABI layout request and the members exactly in
    /// declared order — the emitter neither reorders nor pads. On any
    /// failure the registry and the output are left exactly as they were.
    pub fn gen_struct(&mut self, _module: &Module, data_type_entry: &Named<DataType>) -> (r:
        Result<(), IDLError>)
        requires
            old(self).wf(),
        ensures
            final(self).wf(),
            final(self).target == old(self).target,
            final(self).backend_config == old(self).backend_config,
            r is Ok <==> struct_ok(old(self).defined_view(), *data_type_entry),
            r is Ok ==> {
                &&& final(self).defined_view() == defined_after(
                    old(self).defined_view(),
                    *data_type_entry,
                )
                &&& final(self).output() == old(self).output() + struct_text(
                    old(self).defined_view(),
                    *data_type_entry,
                )
            },
            r matches Err(e) ==> {
                &&& e == struct_err(old(self).defined_view(), *data_type_entry)
                &&& final(self).defined_view() == old(self).defined_view()
                &&& final(self).output() == old(self).output()
            },
    {
        let members = match &data_type_entry.entity {
            DataType::Struct { members } => members,
            _ => {
                return Err(IDLError::VariantMismatch);
            },
        };
        if self.defined.contains_key(&data_type_entry.id.key) {
            return Err(IDLError::DuplicateDefinition);
        }
        let typename = to_camel(data_type_entry.name.as_str());
        let ghost reg2: Map<u64, Seq<char>> = defined_after(
            self.defined_view(),
            *data_type_entry,
        );
        // Resolve every member before anything is registered or emitted, so
        // a dependency-order violation leaves the session state untouched.
        let mut bodies: Vec<String> = Vec::new();
        let mut i: usize = 0;
        while i < members.len()
            invariant
                i <= members.len(),
                bodies@.len() == i,
                data_type_entry.entity matches DataType::Struct { members: ms } && ms
                    == *members,
                typename@ == camel_of(data_type_entry.name@),
                !old(self).defined_view().contains_key(data_type_entry.id.key),
                reg2 == defined_after(old(self).defined_view(), *data_type_entry),
                self.defined@ == old(self).defined@,
                self.w == old(self).w,
                self.target == old(self).target,
                self.backend_config == old(self).backend_config,
                old(self).wf(),
                forall|j: int|
                    0 <= j < i ==> ref_resolvable(reg2, (#[trigger] members@[j]).type_),
                forall|j: int|
                    0 <= j < i ==> (#[trigger] bodies@[j])@ == member_body(reg2, members@[j]),
            decreases members.len() - i,
        {
            let m = &members[i];
            let resolved: String = match &m.type_ {
                DataTypeRef::Defined(id) => {
                    if id.key == data_type_entry.id.key {
                        typename.clone()
                    } else {
                        match self.defined.get(&id.key) {
                            Some(name) => name.clone(),
                            None => {
                                proof {
                                    assert(!ref_resolvable(reg2, members@[i as int].type_));
                                    assert(!struct_ok(
                                        old(self).defined_view(),
                                        *data_type_entry,
                                    ));
                                }
                                return Err(IDLError::UnresolvedReference);
                            },
                        }
                    }
                },
                DataTypeRef::Atom(a) => String::from_str(Self::atom_name(a)),
            };
            let mut body = to_snake(m.name.as_str());
            body.append(": ");
            body.append(resolved.as_str());
            body.append(",");
            bodies.push(body);
            i = i + 1;
        }
        self.defined.insert(data_type_entry.id.key, typename.clone());
        proof {
            assert(self.defined_view() =~= reg2);
        }
        self.w.write_line("#[repr(C)]");
        let mut head = String::from_str("struct ");
        head.append(typename.as_str());
        head.append(" {");
        self.w.write_line(head.as_str());
        let ghost lines: Seq<Seq<char>> = member_line_seq(reg2, members@);
        self.w.begin_block();
        let mut k: usize = 0;
        while k < bodies.len()
            invariant
                k <= bodies.len(),
                bodies@.len() == members@.len(),
                data_type_entry.entity matches DataType::Struct { members: ms } && ms
                    == *members,
                typename@ == camel_of(data_type_entry.name@),
                !old(self).defined_view().contains_key(data_type_entry.id.key),
                reg2 == defined_after(old(self).defined_view(), *data_type_entry),
                lines == member_line_seq(reg2, members@),
                forall|j: int|
                    0 <= j < bodies@.len() ==> (#[trigger] bodies@[j])@ == member_body(
                        reg2,
                        members@[j],
                    ),
                self.defined_view() == reg2,
                self.w.depth == 1,
                self.w.buf@ == old(self).output() + "#[repr(C)]"@ + "\n"@ + "struct "@
                    + typename@ + " {"@ + "\n"@ + concat_lines(lines.take(k as int)),
                self.target == old(self).target,
                self.backend_config == old(self).backend_config,
            decreases bodies.len() - k,
        {
            self.w.write_line(bodies[k].as_str());
            proof {
                lemma_concat_lines_snoc(lines, k as int);
                assert(lines[k as int] == member_line(reg2, members@[k as int]));
                assert(self.w.buf@ =~= old(self).output() + "#[repr(C)]"@ + "\n"@ + "struct "@
                    + typename@ + " {"@ + "\n"@ + concat_lines(lines.take(k as int + 1)));
            }
            k = k + 1;
        }
        self.w.end_block();
        self.w.write_line("}");
        self.w.eob();
        proof {
            assert(lines.take(bodies@.len() as int) =~= lines);
            assert(final(self).output() =~= old(self).output() + struct_text(
                old(self).defined_view(),
                *data_type_entry,
            ));
        }
        Ok(())
    }

    /// Emits an enum declaration: registers the enum's own name, then emits
    /// its closed variant set exactly in declared order — declared order
    /// fixes the discriminants — under an explicit representation request
    /// paired with comparison derives. On failure nothing changes.
    pub fn gen_enum(&mut self, _module: &Module, data_type_entry: &Named<DataType>) -> (r: Result<
        (),
        IDLError,
    >)
        requires
            old(self).wf(),
        ensures
            final(self).wf(),
            final(self).target == old(self).target,
            final(self).backend_config == old(self).backend_config,
            r is Ok <==> enum_ok(old(self).defined_view(), *data_type_entry),
            r is Ok ==> {
                &&& final(self).defined_view() == defined_after(
                    old(self).defined_view(),
                    *data_type_entry,
                )
                &&& final(self).output() == old(self).output() + enum_text(*data_type_entry)
            },
            r matches Err(e) ==> {
                &&& e == enum_err(old(self).defined_view(), *data_type_entry)
                &&& final(self).defined_view() == old(self).defined_view()
                &&& final(self).output() == old(self).output()
            },
    {
        let variants = match &data_type_entry.entity {
            DataType::Enum { variants } => variants,
            _ => {
                return Err(IDLError::VariantMismatch);
            },
        };
        if self.defined.contains_key(&data_type_entry.id.key) {
            return Err(IDLError::DuplicateDefinition);
        }
        let typename = to_camel(data_type_entry.name.as_str());
        self.defined.insert(data_type_entry.id.key, typename.clone());
        proof {
            assert(self.defined_view() =~= defined_after(
                old(self).defined_view(),
                *data_type_entry,
            ));
        }
        self.w.write_line("#[repr(C)]");
        self.w.write_line("#[derive(Debug, PartialEq, Eq, PartialOrd, Ord)]");
        let mut head = String::from_str("enum ");
        head.append(typename.as_str());
        head.append(" {");
        self.w.write_line(head.as_str());
        let ghost lines: Seq<Seq<char>> = variant_line_seq(variants@);
        self.w.begin_block();
        let mut k: usize = 0;
        while k < variants.len()
            invariant
                k <= variants.len(),
                data_type_entry.entity matches DataType::Enum { variants: vs } && vs
                    == *variants,
                typename@ == camel_of(data_type_entry.name@),
                !old(self).defined_view().contains_key(data_type_entry.id.key),
                lines == variant_line_seq(variants@),
                self.defined_view() == defined_after(old(self).defined_view(), *data_type_entry),
                self.w.depth == 1,
                self.w.buf@ == old(self).output() + "#[repr(C)]"@ + "\n"@
                    + "#[derive(Debug, PartialEq, Eq, PartialOrd, Ord)]"@ + "\n"@ + "enum "@
                    + typename@ + " {"@ + "\n"@ + concat_lines(lines.take(k as int)),
                self.target == old(self).target,
                self.backend_config == old(self).backend_config,
            decreases variants.len() - k,
        {
            let mut vline = to_camel(variants[k].as_str());
            vline.append(",");
            self.w.write_line(vline.as_str());
            proof {
                lemma_concat_lines_snoc(lines, k as int);
                assert(lines[k as int] == variant_line(variants@[k as int]@));
                assert(self.w.buf@ =~= old(self).output() + "#[repr(C)]"@ + "\n"@
                    + "#[derive(Debug, PartialEq, Eq, PartialOrd, Ord)]"@ + "\n"@ + "enum "@
                    + typename@ + " {"@ + "\n"@ + concat_lines(lines.take(k as int + 1)));
            }
            k = k + 1;
        }
        self.w.end_block();
        self.w.write_line("}");
        self.w.eob();
        proof {
            assert(lines.take(variants@.len() as int) =~= lines);
            assert(final(self).output() =~= old(self).output() + enum_text(*data_type_entry));
        }
        Ok(())
    }

    /// Processes one declaration: emits its header comment, then dispatches
    /// on the declaration's kind by exhaustive match, so a new kind breaks
    /// compilation of every backend rather than failing silently at run
    /// time. On failure the registry is untouched and only the header
    /// comment has been emitted; the session is expected to abort.
    pub fn gen_datatype(&mut self, module: &Module, data_type_entry: &Named<DataType>) -> (r:
        Result<(), IDLError>)
        requires
            old(self).wf(),
        ensures
            final(self).wf(),
            final(self).target == old(self).target,
            final(self).backend_config == old(self).backend_config,
            r is Ok <==> decl_ok(old(self).defined_view(), *data_type_entry),
            r is Ok ==> {
                &&& final(self).defined_view() == defined_after(
                    old(self).defined_view(),
                    *data_type_entry,
                )
                &&& final(self).output() == old(self).output() + decl_text(
                    old(self).defined_view(),
                    *data_type_entry,
                )
            },
            r matches Err(e) ==> {
                &&& e == decl_err(old(self).defined_view(), *data_type_entry)
                &&& final(self).defined_view() == old(self).defined_view()
                &&& final(self).output() == old(self).output() + header_text(*data_type_entry)
            },
    {
        match self.gen_type_header(module, data_type_entry) {
            Ok(()) => {},
            Err(e) => {
                return Err(e);
            },
        }
        let r = match &data_type_entry.entity {
            DataType::Alias { .. } => self.gen_alias(module, data_type_entry),
            DataType::Struct { .. } => self.gen_struct(module, data_type_entry),
            DataType::Enum { .. } => self.gen_enum(module, data_type_entry),
        };
        proof {
            if r is Ok {
                assert(final(self).output() =~= old(self).output() + decl_text(
                    old(self).defined_view(),
                    *data_type_entry,
                ));
            }
        }
        r
    }
}

/// Runs one full generation session over a module: a fresh registry and an
/// empty sink, every data type declaration processed in the order the
/// module supplies, and a refusal — with nothing handed out — if any
/// declaration cannot be processed. The result is pinned to
/// `module_output`, a function of the module alone.
pub fn generate_module(module: &Module, target: Target, backend_config: BackendConfig) -> (r:
    Result<String, IDLError>)
    ensures
        r matches Ok(text) ==> module_output(*module) == Ok::<Seq<char>, IDLError>(text@),
        r matches Err(e) ==> module_output(*module) == Err::<Seq<char>, IDLError>(e),
{
    let mut g = RustGenerator::new(target, backend_config);
    proof {
        assert(module.data_types@.skip(0) =~= module.data_types@);
    }
    let mut i: usize = 0;
    while i < module.data_types.len()
        invariant
            i <= module.data_types@.len(),
            g.wf(),
            run_data_types(
                Map::<u64, Seq<char>>::empty(),
                Seq::<char>::empty(),
                module.data_types@,
            ) == run_data_types(g.defined_view(), g.output(), module.data_types@.skip(i as int)),
        decreases module.data_types@.len() - i,
    {
        let r = g.gen_datatype(module, &module.data_types[i]);
        proof {
            assert(module.data_types@.skip(i as int)[0] == module.data_types@[i as int]);
        }
        match r {
            Ok(()) => {
                proof {
                    assert(module.data_types@.skip(i as int).skip(1) =~= module.data_types@.skip(
                        i as int + 1,
                    ));
                }
            },
            Err(e) => {
                return Err(e);
            },
        }
        i = i + 1;
    }
    proof {
        assert(module.data_types@.skip(module.data_types@.len() as int)
            =~= Seq::<Named<DataType>>::empty());
    }
    let mut j: usize = 0;
    while j < module.func_decls.len()
        invariant
            j == 0,
            run_data_types(
                Map::<u64, Seq<char>>::empty(),
                Seq::<char>::empty(),
                module.data_types@,
            ) == Ok::<(Map<u64, Seq<char>>, Seq<char>), IDLError>((g.defined_view(), g.output())),
        decreases module.func_decls@.len() - j,
    {
        match g.gen_function(module, &module.func_decls[j]) {
            Ok(()) => {
                j = j + 1;
            },
            Err(e) => {
                return Err(e);
            },
        }
    }
    Ok(g.w.buf)
}

/// Determinism: one module yields one result. Any two generation results
/// over the same module — whatever the configurations, and however often
/// the session is re-run — are byte-identical, because `generate_module`
/// pins its result to `module_output`, a function of the module alone.
pub proof fn lemma_generation_deterministic(
    module: Module,
    r1: Result<Seq<char>, IDLError>,
    r2: Result<Seq<char>, IDLError>,
)
    requires
        r1 == module_output(module),
        r2 == module_output(module),
    ensures
        r1 == r2,
{
}

/// A rendered prefix of a line sequence is a literal prefix of the whole
/// rendering: lines are only ever appended, never moved.
pub proof fn lemma_concat_lines_prefix(lines: Seq<Seq<char>>, j: int)
    requires
        0 <= j <= lines.len(),
    ensures
        concat_lines(lines.take(j)).len() <= concat_lines(lines).len(),
        concat_lines(lines).subrange(0, concat_lines(lines.take(j)).len() as int)
            == concat_lines(lines.take(j)),
    decreases lines.len() - j,
{
    let full = concat_lines(lines);
    if j == lines.len() {
        assert(lines.take(j) =~= lines);
        assert(full.subrange(0, full.len() as int) =~= full);
    } else {
        lemma_concat_lines_snoc(lines, j);
        lemma_concat_lines_prefix(lines, j + 1);
        let a = concat_lines(lines.take(j));
        let b = concat_lines(lines.take(j + 1));
        assert(b == a + lines[j]);
        assert(full.subrange(0, b.len() as int) == b);
        assert(full.subrange(0, a.len() as int) =~= a);
    }
}

/// Order preservation for structs: in an emitted struct body the line for
/// member `i` stands exactly between the renderings of the first `i` and
/// the first `i + 1` members — members appear in declared order, never
/// reordered.
pub proof fn lemma_struct_member_order(
    defined: Map<u64, Seq<char>>,
    members: Seq<StructMember>,
    i: int,
)
    requires
        0 <= i < members.len(),
    ensures
        ({
            let body = concat_lines(member_line_seq(defined, members));
            let lo = concat_lines(member_line_seq(defined, members).take(i)).len();
            let hi = concat_lines(member_line_seq(defined, members).take(i + 1)).len();
            &&& lo < hi <= body.len()
            &&& body.subrange(lo as int, hi as int) == member_line(defined, members[i])
        }),
{
    let lines = member_line_seq(defined, members);
    let full = concat_lines(lines);
    lemma_concat_lines_snoc(lines, i);
    lemma_concat_lines_prefix(lines, i + 1);
    let a = concat_lines(lines.take(i));
    let b = concat_lines(lines.take(i + 1));
    assert(b == a + lines[i]);
    assert(lines[i] == member_line(defined, members[i]));
    reveal_strlit("\n");
    assert(lines[i].len() > 0);
    assert(full.subrange(0, b.len() as int) == b);
    assert(b.len() == a.len() + lines[i].len());
    assert forall|k: int| 0 <= k < lines[i].len() implies full[a.len() + k] == lines[i][k] by {
        assert(b[a.len() + k] == lines[i][k]);
        assert(full.subrange(0, b.len() as int)[a.len() + k] == b[a.len() + k]);
    }
    assert(full.subrange(a.len() as int, b.len() as int) =~= member_line(defined, members[i]));
}

/// Order preservation for enums: in an emitted enum body the line for
/// variant `i` stands exactly between the renderings of the first `i` and
/// the first `i + 1` variants — declared order is kept, which is what
/// fixes the discriminants.
pub proof fn lemma_enum_variant_order(variants: Seq<String>, i: int)
    requires
        0 <= i < variants.len(),
    ensures
        ({
            let body = concat_lines(variant_line_seq(variants));
            let lo = concat_lines(variant_line_seq(variants).take(i)).len();
            let hi = concat_lines(variant_line_seq(variants).take(i + 1)).len();
            &&& lo < hi <= body.len()
            &&& body.subrange(lo as int, hi as int) == variant_line(variants[i]@)
        }),
{
    let lines = variant_line_seq(variants);
    let full = concat_lines(lines);
    lemma_concat_lines_snoc(lines, i);
    lemma_concat_lines_prefix(lines, i + 1);
    let a = concat_lines(lines.take(i));
    let b = concat_lines(lines.take(i + 1));
    assert(b == a + lines[i]);
    assert(lines[i] == variant_line(variants[i]@));
    reveal_strlit("\n");
    assert(lines[i].len() > 0);
    assert(full.subrange(0, b.len() as int) == b);
    assert(b.len() == a.len() + lines[i].len());
    assert forall|k: int| 0 <= k < lines[i].len() implies full[a.len() + k] == lines[i][k] by {
        assert(b[a.len() + k] == lines[i][k]);
        assert(full.subrange(0, b.len() as int)[a.len() + k] == b[a.len() + k]);
    }
    assert(full.subrange(a.len() as int, b.len() as int) =~= variant_line(variants[i]@));
}

/// The atom a type reference ultimately denotes once alias links are
/// chased: `aliases` maps each alias declaration's identifier to that
/// alias's target, and `fuel` bounds the number of links followed.
pub open spec fn chase_to_atom(aliases: Map<u64, DataTypeRef>, r: DataTypeRef, fuel: nat)
    -> Option<AtomType>
    decreases fuel,
{
    match r {
        DataTypeRef::Atom(a) => Some(a),
        DataTypeRef::Defined(id) => if fuel == 0 || !aliases.contains_key(id.key) {
            None
        } else {
            chase_to_atom(aliases, aliases[id.key], (fuel - 1) as nat)
        },
    }
}

/// The atomic type table's token for the atom a chased reference lands on,
/// if the chain ends at an atom at all.
pub open spec fn chain_token(aliases: Map<u64, DataTypeRef>, r: DataTypeRef, fuel: nat) -> Option<
    Seq<char>,
> {
    match chase_to_atom(aliases, r, fuel) {
        Some(a) => Some(atom_token(a)),
        None => None,
    }
}

/// Alias transitivity: chasing one link from an alias yields exactly what
/// chasing from its target yields, and a chain standing at an atom is
/// already at that atom's token — so an alias chain of any length resolves
/// to the same atomic token the final atom would produce directly.
pub proof fn lemma_alias_transitivity(
    aliases: Map<u64, DataTypeRef>,
    id: Ident,
    atom: AtomType,
    fuel: nat,
)
    requires
        aliases.contains_key(id.key),
    ensures
        chain_token(aliases, DataTypeRef::Defined(id), fuel + 1) == chain_token(
            aliases,
            aliases[id.key],
            fuel,
        ),
        chain_token(aliases, DataTypeRef::Atom(atom), fuel) == Some(atom_token(atom)),
{
}

/// Total atomic mapping: the table has an entry for every atomic kind —
/// the match is exhaustive, so a new kind cannot slip through — and every
/// entry is a non-empty token.
pub proof fn lemma_atom_mapping_total(atom_type: AtomType)
    ensures
        atom_token(atom_type).len() > 0,
{
    reveal_strlit("bool");
    reveal_strlit("u8");
    reveal_strlit("u16");
    reveal_strlit("u32");
    reveal_strlit("u64");
    reveal_strlit("i16");
    reveal_strlit("i32");
    reveal_strlit("i64");
    reveal_strlit("f32");
    reveal_strlit("f64");
}

/// The one deliberate asymmetry in the atomic type table: the 8-bit signed
/// kind is widened to the 32-bit signed token for host portability, while
/// its sibling kinds map width-for-width. Widening changes struct layout,
/// so it is pinned here as a reviewed decision rather than left implicit.
pub proof fn lemma_signed_byte_widened()
    ensures
        atom_token(AtomType::I8) == atom_token(AtomType::I32),
        atom_token(AtomType::I8) != "i8"@,
{
    reveal_strlit("i32");
    reveal_strlit("i8");
    assert("i8"@.len() == 2);
    assert("i32"@.len() == 3);
}

} // verus!
