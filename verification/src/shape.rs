//! The field-projection generator.
//!
//! Input: the declared shape of a record or tagged-variant type — its name,
//! visibility, generic parameters, and field or variant list, each field with
//! its name, type and visibility, all carried as plain structural values.
//! Output, derived deterministically from the shape: the definition of the
//! companion view type, in which every field's type is rewritten to a
//! capability-tagged reference to that field, and the description of the
//! projection that builds the view by destructuring the record once, field
//! for field and arm for arm.
//!
//! A shape that is neither a plain record nor a tagged variant — a union, or
//! a unit shape without fields — is rejected deterministically; there is no
//! partial output.

use vstd::prelude::*;

use vstd::string::StringExecFns;

verus! {

/// Why a shape was rejected.
#[derive(Debug, PartialEq, Eq)]
pub enum ShapeError {
    /// The shape has no fields at all; there is nothing to project.
    UnitFields,
    /// The shape is an untagged union, whose layout admits no sound
    /// field-level borrow.
    UnionShape,
}

/// One declared field: its visibility and type, copied verbatim from the
/// declaration, and its name, absent for the positional fields of a tuple
/// shape.
#[derive(Debug, PartialEq, Eq)]
pub struct FieldDesc {
    pub vis: String,
    pub name: Option<String>,
    pub ty: String,
}

/// The field list of a record or of one variant.
#[derive(Debug, PartialEq, Eq)]
pub enum FieldsDesc {
    Named(Vec<FieldDesc>),
    Unnamed(Vec<FieldDesc>),
    Unit,
}

impl FieldsDesc {
    /// Named field lists name every field.
    pub open spec fn wf(self) -> bool {
        match self {
            FieldsDesc::Named(fs) => forall|i: int|
                0 <= i < fs@.len() ==> (#[trigger] fs@[i].name) is Some,
            FieldsDesc::Unnamed(fs) => true,
            FieldsDesc::Unit => true,
        }
    }
}

/// One variant of a tagged-variant shape.
#[derive(Debug, PartialEq, Eq)]
pub struct VariantDesc {
    pub name: String,
    pub fields: FieldsDesc,
}

/// The data part of a declared shape.
#[derive(Debug, PartialEq, Eq)]
pub enum DataDesc {
    StructData(FieldsDesc),
    EnumData(Vec<VariantDesc>),
    UnionData,
}

impl DataDesc {
    pub open spec fn wf(self) -> bool {
        match self {
            DataDesc::StructData(f) => f.wf(),
            DataDesc::EnumData(vs) => forall|i: int|
                0 <= i < vs@.len() ==> (#[trigger] vs@[i].fields).wf(),
            DataDesc::UnionData => true,
        }
    }

    /// Whether the shape holds a field list without fields, which the
    /// generator rejects.
    pub open spec fn has_unit_fields(self) -> bool {
        match self {
            DataDesc::StructData(f) => f is Unit,
            DataDesc::EnumData(vs) => exists|i: int|
                0 <= i < vs@.len() && (#[trigger] vs@[i].fields) is Unit,
            DataDesc::UnionData => false,
        }
    }
}

/// A declared shape: what the generator reads of a type declaration.
#[derive(Debug, PartialEq, Eq)]
pub struct InputDesc {
    pub vis: String,
    pub name: String,
    pub generics: Vec<String>,
    pub data: DataDesc,
}

/// One field of the generated view: the declared visibility, name and type
/// carried over unchanged, the type to be wrapped as a reference over the
/// view's lifetime and capability parameters.
#[derive(Debug, PartialEq, Eq)]
pub struct WrappedField {
    pub vis: String,
    pub name: Option<String>,
    pub lifetime: String,
    pub ty: String,
    pub ref_type: String,
}

/// How the projection destructures one field list: named fields are bound by
/// their names, positional fields in declaration order.
#[derive(Debug, PartialEq, Eq)]
pub enum ProjBindings {
    ByName(Vec<String>),
    ByPosition(usize),
}

/// The generated view of one field list: the wrapped field definitions, the
/// constructor path the projection arm builds, and the bindings its pattern
/// introduces, one per field, in order.
#[derive(Debug, PartialEq, Eq)]
pub struct FieldsGen {
    pub ctor: String,
    pub def: Vec<WrappedField>,
    pub bindings: ProjBindings,
}

/// The name the generator derives for the view type itself.
pub open spec fn view_name_of(name: String) -> Seq<char> {
    name@ + "Ref"@
}

/// The name the generator derives for the view's lifetime parameter.
pub open spec fn lifetime_of(name: String) -> Seq<char> {
    "'__Ref__Access__"@ + name@
}

/// The name the generator derives for the view's capability parameter.
pub open spec fn ref_type_of(name: String) -> Seq<char> {
    "__"@ + name@ + "__ref_type"@
}

/// One generated field mirrors one declared field: same visibility, name and
/// type, wrapped over the view's lifetime and capability.
pub open spec fn wrapped_matches(w: WrappedField, f: FieldDesc, lt: Seq<char>, rt: Seq<char>) -> bool {
    &&& w.vis == f.vis
    &&& w.name == f.name
    &&& w.ty == f.ty
    &&& w.lifetime@ == lt
    &&& w.ref_type@ == rt
}

/// The generated view of a named field list mirrors it field for field and
/// binds every field by name, in order.
pub open spec fn named_gen_matches(
    g: FieldsGen,
    fs: Seq<FieldDesc>,
    ctor: Seq<char>,
    lt: Seq<char>,
    rt: Seq<char>,
) -> bool {
    &&& g.ctor@ == ctor
    &&& g.def@.len() == fs.len()
    &&& forall|i: int| 0 <= i < fs.len() ==> wrapped_matches(#[trigger] g.def@[i], fs[i], lt, rt)
    &&& g.bindings matches ProjBindings::ByName(bs) && bs@.len() == fs.len() && forall|i: int|
        0 <= i < fs.len() ==> #[trigger] bs@[i] == fs[i].name.unwrap()
}

/// The generated view of a positional field list mirrors it field for field
/// and binds every position, in order.
pub open spec fn unnamed_gen_matches(
    g: FieldsGen,
    fs: Seq<FieldDesc>,
    ctor: Seq<char>,
    lt: Seq<char>,
    rt: Seq<char>,
) -> bool {
    &&& g.ctor@ == ctor
    &&& g.def@.len() == fs.len()
    &&& forall|i: int| 0 <= i < fs.len() ==> wrapped_matches(#[trigger] g.def@[i], fs[i], lt, rt)
    &&& g.bindings matches ProjBindings::ByPosition(n) && n == fs.len()
}

/// Generates the view of a named field list: every field reappears under its
/// own name and visibility, its type wrapped; the projection arm binds each
/// field by name and wraps it.
pub fn gen_named(ast: &Vec<FieldDesc>, ref_path: &String, lt: &String, ref_type: &String) -> (r:
    FieldsGen)
    requires
        forall|i: int| 0 <= i < ast@.len() ==> (#[trigger] ast@[i].name) is Some,
    ensures
        named_gen_matches(r, ast@, ref_path@, lt@, ref_type@),
{
    let mut def: Vec<WrappedField> = Vec::new();
    let mut bindings: Vec<String> = Vec::new();
    let n = ast.len();
    let mut k: usize = 0;
    while k < n
        invariant
            n == ast@.len(),
            k <= n,
            forall|i: int| 0 <= i < ast@.len() ==> (#[trigger] ast@[i].name) is Some,
            def@.len() == k,
            bindings@.len() == k,
            forall|i: int|
                0 <= i < k ==> wrapped_matches(#[trigger] def@[i], ast@[i], lt@, ref_type@),
            forall|i: int| 0 <= i < k ==> #[trigger] bindings@[i] == ast@[i].name.unwrap(),
        decreases n - k,
    {
        let f = &ast[k];
        let name = match &f.name {
            Some(id) => id.clone(),
            None => vstd::pervasive::unreached(),
        };
        def.push(
            WrappedField {
                vis: f.vis.clone(),
                name: Some(name.clone()),
                lifetime: lt.clone(),
                ty: f.ty.clone(),
                ref_type: ref_type.clone(),
            },
        );
        bindings.push(name);
        k = k + 1;
    }
    FieldsGen { ctor: ref_path.clone(), def, bindings: ProjBindings::ByName(bindings) }
}

/// Generates the view of a positional field list: every field reappears at
/// its position with its visibility, its type wrapped; the projection arm
/// binds the positions in order and wraps each.
pub fn gen_unnamed(ast: &Vec<FieldDesc>, ref_path: &String, lt: &String, ref_type: &String) -> (r:
    FieldsGen)
    ensures
        unnamed_gen_matches(r, ast@, ref_path@, lt@, ref_type@),
{
    let mut def: Vec<WrappedField> = Vec::new();
    let n = ast.len();
    let mut k: usize = 0;
    while k < n
        invariant
            n == ast@.len(),
            k <= n,
            def@.len() == k,
            forall|i: int|
                0 <= i < k ==> wrapped_matches(#[trigger] def@[i], ast@[i], lt@, ref_type@),
        decreases n - k,
    {
        let f = &ast[k];
        let name = match &f.name {
            Some(id) => Some(id.clone()),
            None => None,
        };
        def.push(
            WrappedField {
                vis: f.vis.clone(),
                name,
                lifetime: lt.clone(),
                ty: f.ty.clone(),
                ref_type: ref_type.clone(),
            },
        );
        k = k + 1;
    }
    FieldsGen { ctor: ref_path.clone(), def, bindings: ProjBindings::ByPosition(n) }
}

/// Generates the view of one field list, named or positional; a unit field
/// list is rejected, deterministically and with no partial output.
pub fn gen(ast: &FieldsDesc, ref_path: &String, lt: &String, ref_type: &String) -> (r: Result<
    FieldsGen,
    ShapeError,
>)
    requires
        ast.wf(),
    ensures
        ast matches FieldsDesc::Named(fs) ==> (r matches Ok(g) && named_gen_matches(g, fs@, ref_path@, lt@, ref_type@)),
        ast matches FieldsDesc::Unnamed(fs) ==> (r matches Ok(g) && unnamed_gen_matches(g, fs@, ref_path@, lt@, ref_type@)),
        ast is Unit <==> (r matches Err(e) && e == ShapeError::UnitFields),
{
    match ast {
        FieldsDesc::Named(data) => Ok(gen_named(data, ref_path, lt, ref_type)),
        FieldsDesc::Unnamed(data) => Ok(gen_unnamed(data, ref_path, lt, ref_type)),
        FieldsDesc::Unit => Err(ShapeError::UnitFields),
    }
}

/// The names the generator derives from the name of the projected type: the
/// view type's name, the view's capability parameter, the view's lifetime
/// parameter, and the view's full generic parameter list — the declared
/// parameters carried through unchanged, then the lifetime, then the
/// capability.
#[derive(Debug, PartialEq, Eq)]
pub struct RefGenerics {
    pub ref_path: String,
    pub ref_type: String,
    pub lt: String,
    pub generics: Vec<String>,
}

/// How [`RefGenerics`] is derived from the type's name and declared generic
/// parameters.
pub open spec fn generics_match(r: RefGenerics, name: String, start: Seq<String>) -> bool {
    &&& r.ref_path@ == view_name_of(name)
    &&& r.ref_type@ == ref_type_of(name)
    &&& r.lt@ == lifetime_of(name)
    &&& r.generics@.len() == start.len() + 2
    &&& forall|i: int| 0 <= i < start.len() ==> #[trigger] r.generics@[i] == start[i]
    &&& r.generics@[start.len() as int] == r.lt
    &&& r.generics@[start.len() as int + 1] == r.ref_type
}

/// Derives the view's names and generic parameter list from the projected
/// type's name and declared parameters. The derived names embed the type's
/// name, so distinct types get distinct views.
pub fn compute_generics(name: &String, start: &Vec<String>) -> (r: RefGenerics)
    ensures
        generics_match(r, *name, start@),
{
    let lt: String = String::from_str("'__Ref__Access__").concat(name.as_str());
    let ref_type: String = String::from_str("__").concat(name.as_str()).concat("__ref_type");
    let ref_path: String = name.clone().concat("Ref");
    let mut generics: Vec<String> = Vec::new();
    let n = start.len();
    let mut k: usize = 0;
    while k < n
        invariant
            n == start@.len(),
            k <= n,
            generics@.len() == k,
            forall|i: int| 0 <= i < k ==> #[trigger] generics@[i] == start@[i],
        decreases n - k,
    {
        generics.push(start[k].clone());
        k = k + 1;
    }
    generics.push(lt.clone());
    generics.push(ref_type.clone());
    RefGenerics { ref_path, ref_type, lt, generics }
}

/// The generated view of one variant: the variant's name, and its field list
/// wrapped.
#[derive(Debug, PartialEq, Eq)]
pub struct VariantGen {
    pub name: String,
    pub gen: FieldsGen,
}

/// The data part of a generated view: a record view mirrors the record's one
/// field list; a tagged-variant view mirrors every variant.
#[derive(Debug, PartialEq, Eq)]
pub enum GeneratedBody {
    StructView(FieldsGen),
    EnumView(Vec<VariantGen>),
}

/// A generated companion view: its visibility (that of the projected type),
/// its name, its generic parameter list, and its body.
#[derive(Debug, PartialEq, Eq)]
pub struct Generated {
    pub vis: String,
    pub ref_path: String,
    pub generics: Vec<String>,
    pub body: GeneratedBody,
}

/// One generated field list mirrors one declared field list, under the given
/// constructor path.
pub open spec fn fields_gen_matches(
    g: FieldsGen,
    f: FieldsDesc,
    ctor: Seq<char>,
    lt: Seq<char>,
    rt: Seq<char>,
) -> bool {
    match f {
        FieldsDesc::Named(fs) => named_gen_matches(g, fs@, ctor, lt, rt),
        FieldsDesc::Unnamed(fs) => unnamed_gen_matches(g, fs@, ctor, lt, rt),
        FieldsDesc::Unit => false,
    }
}

/// The whole generated view mirrors the declared shape: same visibility, the
/// derived view name and parameter list, and arm for arm, field for field,
/// the declared fields wrapped; every variant's constructor path is the view
/// name followed by that variant's name.
pub open spec fn generated_matches(g: Generated, ast: InputDesc) -> bool {
    &&& g.vis == ast.vis
    &&& g.ref_path@ == view_name_of(ast.name)
    &&& g.generics@.len() == ast.generics@.len() + 2
    &&& forall|i: int| 0 <= i < ast.generics@.len() ==> #[trigger] g.generics@[i] == ast.generics@[i]
    &&& g.generics@[ast.generics@.len() as int]@ == lifetime_of(ast.name)
    &&& g.generics@[ast.generics@.len() as int + 1]@ == ref_type_of(ast.name)
    &&& match ast.data {
        DataDesc::StructData(f) => g.body matches GeneratedBody::StructView(fg)
            && fields_gen_matches(fg, f, view_name_of(ast.name), lifetime_of(ast.name), ref_type_of(ast.name)),
        DataDesc::EnumData(vs) => g.body matches GeneratedBody::EnumView(vgs) && {
            &&& vgs@.len() == vs@.len()
            &&& forall|i: int| 0 <= i < vs@.len() ==> (#[trigger] vgs@[i]).name == vs@[i].name
            &&& forall|i: int|
                0 <= i < vs@.len() ==> fields_gen_matches(
                    (#[trigger] vgs@[i]).gen,
                    vs@[i].fields,
                    view_name_of(ast.name) + "::"@ + vs@[i].name@,
                    lifetime_of(ast.name),
                    ref_type_of(ast.name),
                )
        },
        DataDesc::UnionData => false,
    }
}

/// Generates the companion view of a declared shape, deterministically:
/// a record or tagged-variant shape yields its view; a union, or a shape
/// with a unit field list, is rejected with the matching error and no
/// partial output.
pub fn impl_ref_accessors(ast: &InputDesc) -> (r: Result<Generated, ShapeError>)
    requires
        ast.data.wf(),
    ensures
        r matches Ok(g) ==> generated_matches(g, *ast),
        (r matches Err(e) && e == ShapeError::UnionShape) <==> ast.data is UnionData,
        (r matches Err(e) && e == ShapeError::UnitFields) <==> !(ast.data is UnionData)
            && ast.data.has_unit_fields(),
        r is Ok <==> !(ast.data is UnionData) && !ast.data.has_unit_fields(),
{
    let rg = compute_generics(&ast.name, &ast.generics);
    let RefGenerics { ref_path, ref_type, lt, generics } = rg;
    match &ast.data {
        DataDesc::StructData(fields) => {
            match gen(fields, &ref_path, &lt, &ref_type) {
                Ok(fg) => Ok(
                    Generated {
                        vis: ast.vis.clone(),
                        ref_path,
                        generics,
                        body: GeneratedBody::StructView(fg),
                    },
                ),
                Err(e) => Err(e),
            }
        },
        DataDesc::EnumData(variants) => {
            let mut vgs: Vec<VariantGen> = Vec::new();
            let n = variants.len();
            let mut k: usize = 0;
            while k < n
                invariant
                    ast.data == DataDesc::EnumData(*variants),
                    n == variants@.len(),
                    k <= n,
                    forall|i: int| 0 <= i < variants@.len() ==> (#[trigger] variants@[i].fields).wf(),
                    vgs@.len() == k,
                    forall|i: int| 0 <= i < k ==> (#[trigger] vgs@[i]).name == variants@[i].name,
                    forall|i: int| 0 <= i < k ==> !((#[trigger] variants@[i].fields) is Unit),
                    forall|i: int|
                        0 <= i < k ==> fields_gen_matches(
                            (#[trigger] vgs@[i]).gen,
                            variants@[i].fields,
                            ref_path@ + "::"@ + variants@[i].name@,
                            lt@,
                            ref_type@,
                        ),
                decreases n - k,
            {
                let v = &variants[k];
                let arm_path: String = ref_path.clone().concat("::").concat(v.name.as_str());
                match gen(&v.fields, &arm_path, &lt, &ref_type) {
                    Ok(fg) => {
                        vgs.push(VariantGen { name: v.name.clone(), gen: fg });
                    },
                    Err(e) => {
                        proof {
                            assert(ast.data->EnumData_0@[k as int].fields is Unit);
                            assert(ast.data.has_unit_fields());
                        }
                        return Err(e);
                    },
                }
                k = k + 1;
            }
            Ok(
                Generated {
                    vis: ast.vis.clone(),
                    ref_path,
                    generics,
                    body: GeneratedBody::EnumView(vgs),
                },
            )
        },
        DataDesc::UnionData => Err(ShapeError::UnionShape),
    }
}


/// Two generated field lists that mirror the same declared field list agree
/// on everything: constructor path, every wrapped field, and the bindings.
pub open spec fn fields_gens_agree(a: FieldsGen, b: FieldsGen) -> bool {
    &&& a.ctor@ == b.ctor@
    &&& a.def@.len() == b.def@.len()
    &&& forall|i: int|
        0 <= i < a.def@.len() ==> {
            &&& (#[trigger] a.def@[i]).vis == b.def@[i].vis
            &&& a.def@[i].name == b.def@[i].name
            &&& a.def@[i].ty == b.def@[i].ty
            &&& a.def@[i].lifetime@ == b.def@[i].lifetime@
            &&& a.def@[i].ref_type@ == b.def@[i].ref_type@
        }
    &&& match (a.bindings, b.bindings) {
        (ProjBindings::ByName(xs), ProjBindings::ByName(ys)) => xs@ == ys@,
        (ProjBindings::ByPosition(n), ProjBindings::ByPosition(m)) => n == m,
        _ => false,
    }
}

proof fn lemma_fields_gen_agree(g1: FieldsGen, g2: FieldsGen, f: FieldsDesc, ctor: Seq<char>, lt: Seq<char>, rt: Seq<char>)
    requires
        fields_gen_matches(g1, f, ctor, lt, rt),
        fields_gen_matches(g2, f, ctor, lt, rt),
    ensures
        fields_gens_agree(g1, g2),
{
    match f {
        FieldsDesc::Named(_) => {
            let xs = g1.bindings->ByName_0;
            let ys = g2.bindings->ByName_0;
            assert(xs@ =~= ys@);
        },
        FieldsDesc::Unnamed(_) => {
        },
        FieldsDesc::Unit => {
        },
    }
}

/// The generator is deterministic: any two outputs it admits for one and the
/// same declared shape agree on the view's visibility, name, parameter list,
/// and, arm for arm and field for field, on the whole generated view.
pub proof fn lemma_generator_deterministic(ast: InputDesc, g1: Generated, g2: Generated)
    requires
        generated_matches(g1, ast),
        generated_matches(g2, ast),
    ensures
        g1.vis == g2.vis,
        g1.ref_path@ == g2.ref_path@,
        g1.generics@.len() == g2.generics@.len(),
        forall|i: int| 0 <= i < g1.generics@.len() ==> (#[trigger] g1.generics@[i])@ == g2.generics@[i]@,
        g1.body matches GeneratedBody::StructView(a) ==> (g2.body matches GeneratedBody::StructView(b) && fields_gens_agree(a, b)),
        g1.body matches GeneratedBody::EnumView(va) ==> (g2.body matches GeneratedBody::EnumView(vb) && va@.len() == vb@.len() && forall|i: int|
            0 <= i < va@.len() ==> (#[trigger] va@[i]).name == vb@[i].name && fields_gens_agree(va@[i].gen, vb@[i].gen)),
{
    assert forall|i: int| 0 <= i < g1.generics@.len() implies (#[trigger] g1.generics@[i])@ == g2.generics@[i]@ by {
        if i < ast.generics@.len() {
            assert(g1.generics@[i] == ast.generics@[i]);
            assert(g2.generics@[i] == ast.generics@[i]);
        }
    }
    match ast.data {
        DataDesc::StructData(f) => {
            lemma_fields_gen_agree(
                g1.body->StructView_0,
                g2.body->StructView_0,
                f,
                view_name_of(ast.name),
                lifetime_of(ast.name),
                ref_type_of(ast.name),
            );
        },
        DataDesc::EnumData(vs) => {
            let va = g1.body->EnumView_0;
            let vb = g2.body->EnumView_0;
            assert forall|i: int| 0 <= i < va@.len() implies (#[trigger] va@[i]).name == vb@[i].name
                && fields_gens_agree(va@[i].gen, vb@[i].gen) by {
                lemma_fields_gen_agree(
                    va@[i].gen,
                    vb@[i].gen,
                    vs@[i].fields,
                    view_name_of(ast.name) + "::"@ + vs@[i].name@,
                    lifetime_of(ast.name),
                    ref_type_of(ast.name),
                );
            }
        },
        DataDesc::UnionData => {
        },
    }
}

} // verus!
