//! The target instruction model: references to managed types, function
//! signatures, call sites and the flat instruction sequence the lowering
//! pass emits.

use vstd::prelude::*;

verus! {

/// Mathematical value of a [`DotnetTypeRef`].
pub struct DotnetTypeRefView {
    pub assembly: Option<Seq<char>>,
    pub name: Seq<char>,
    pub is_valuetype: bool,
}

/// A reference to a type of the managed runtime: the assembly it lives in
/// (`None` for a type of the local assembly), its simple name, and whether
/// it is a value type.  Two references are equal iff all three fields match.
#[derive(Debug, PartialEq, Eq)]
pub struct DotnetTypeRef {
    pub assembly: Option<String>,
    pub name: String,
    pub is_valuetype: bool,
}

impl View for DotnetTypeRef {
    type V = DotnetTypeRefView;

    open spec fn view(&self) -> DotnetTypeRefView {
        DotnetTypeRefView {
            assembly: match self.assembly {
                Some(a) => Some(a@),
                None => None,
            },
            name: self.name@,
            is_valuetype: self.is_valuetype,
        }
    }
}

impl DotnetTypeRef {
    /// A reference to the named type, not a value type until
    /// [`Self::set_valuetype`] says otherwise.
    pub fn new(assembly: Option<&str>, name: &str) -> (r: Self)
        ensures
            r@.assembly == (match assembly {
                Some(a) => Some(a@),
                None => None::<Seq<char>>,
            }),
            r@.name == name@,
            !r@.is_valuetype,
    {
        DotnetTypeRef {
            assembly: match assembly {
                Some(a) => Some(a.to_owned()),
                None => None,
            },
            name: name.to_owned(),
            is_valuetype: false,
        }
    }

    pub fn set_valuetype(&mut self, is_valuetype: bool)
        ensures
            final(self)@ == (DotnetTypeRefView { is_valuetype, ..old(self)@ }),
    {
        self.is_valuetype = is_valuetype;
    }

}

impl Clone for DotnetTypeRef {
    fn clone(&self) -> (r: Self)
        ensures
            r@ == self@,
    {
        DotnetTypeRef {
            assembly: match &self.assembly {
                Some(a) => Some(a.clone()),
                None => None,
            },
            name: self.name.clone(),
            is_valuetype: self.is_valuetype,
        }
    }
}

/// Mathematical value of a [`Type`].
pub enum TypeView {
    Void,
    Bool,
    U8,
    U16,
    U32,
    U64,
    USize,
    I8,
    I16,
    I32,
    I64,
    ISize,
    DotnetType(DotnetTypeRefView),
}

/// A type of the target language, as far as this engine reads one: the
/// void marker, the primitive integer and boolean types, or a reference
/// to a managed type.
#[derive(Debug, PartialEq, Eq)]
pub enum Type {
    Void,
    Bool,
    U8,
    U16,
    U32,
    U64,
    USize,
    I8,
    I16,
    I32,
    I64,
    ISize,
    DotnetType(DotnetTypeRef),
}

impl View for Type {
    type V = TypeView;

    open spec fn view(&self) -> TypeView {
        match self {
            Type::Void => TypeView::Void,
            Type::Bool => TypeView::Bool,
            Type::U8 => TypeView::U8,
            Type::U16 => TypeView::U16,
            Type::U32 => TypeView::U32,
            Type::U64 => TypeView::U64,
            Type::USize => TypeView::USize,
            Type::I8 => TypeView::I8,
            Type::I16 => TypeView::I16,
            Type::I32 => TypeView::I32,
            Type::I64 => TypeView::I64,
            Type::ISize => TypeView::ISize,
            Type::DotnetType(r) => TypeView::DotnetType(r@),
        }
    }
}

impl Type {
    /// Whether this is the void marker; calls are routed to their
    /// destination exactly when their return type is not void.
    pub fn is_void(&self) -> (r: bool)
        ensures
            r == (self@ == TypeView::Void),
    {
        match self {
            Type::Void => true,
            _ => false,
        }
    }
}

impl Clone for Type {
    fn clone(&self) -> (r: Self)
        ensures
            r@ == self@,
    {
        match self {
            Type::Void => Type::Void,
            Type::Bool => Type::Bool,
            Type::U8 => Type::U8,
            Type::U16 => Type::U16,
            Type::U32 => Type::U32,
            Type::U64 => Type::U64,
            Type::USize => Type::USize,
            Type::I8 => Type::I8,
            Type::I16 => Type::I16,
            Type::I32 => Type::I32,
            Type::I64 => Type::I64,
            Type::ISize => Type::ISize,
            Type::DotnetType(r) => Type::DotnetType(r.clone()),
        }
    }
}

impl From<DotnetTypeRef> for Type {
    fn from(tpe: DotnetTypeRef) -> (r: Self)
        ensures
            r@ == TypeView::DotnetType(tpe@),
    {
        Type::DotnetType(tpe)
    }
}

impl vstd::std_specs::convert::FromSpecImpl<DotnetTypeRef> for Type {
    open spec fn obeys_from_spec() -> bool {
        true
    }

    open spec fn from_spec(tpe: DotnetTypeRef) -> Type {
        Type::DotnetType(tpe)
    }
}

/// Mathematical value of a [`FnSig`].
pub struct FnSigView {
    pub inputs: Seq<TypeView>,
    pub output: TypeView,
}

/// Mathematical value of a sequence of types.
pub open spec fn types_view(s: Seq<Type>) -> Seq<TypeView> {
    s.map_values(|t: Type| t@)
}

/// A function signature of the target language: the ordered parameter
/// types and one return type (or the void marker).  Never mutated once
/// derived for a call site.
#[derive(Debug, PartialEq, Eq)]
pub struct FnSig {
    pub inputs: Vec<Type>,
    pub output: Type,
}

impl View for FnSig {
    type V = FnSigView;

    open spec fn view(&self) -> FnSigView {
        FnSigView { inputs: types_view(self.inputs@), output: self.output@ }
    }
}

/// Clones a slice of types, keeping each element's mathematical value.
pub fn clone_types(s: &[Type]) -> (r: Vec<Type>)
    ensures
        types_view(r@) == types_view(s@),
{
    let mut r: Vec<Type> = Vec::new();
    let mut i: usize = 0;
    while i < s.len()
        invariant
            i <= s@.len(),
            r@.len() == i,
            forall|j: int| 0 <= j < i ==> r@[j]@ == s@[j]@,
        decreases s@.len() - i,
    {
        let t = s[i].clone();
        r.push(t);
        i = i + 1;
    }
    proof {
        assert(types_view(r@) =~= types_view(s@));
    }
    r
}

impl FnSig {
    /// A signature with the given parameter types and return type.
    pub fn new(inputs: &[Type], output: &Type) -> (r: Self)
        ensures
            r@.inputs == types_view(inputs@),
            r@.output == output@,
    {
        FnSig { inputs: clone_types(inputs), output: output.clone() }
    }

    /// The return type.
    pub fn output(&self) -> (r: &Type)
        ensures
            r@ == self@.output,
    {
        &self.output
    }
}

impl Clone for FnSig {
    fn clone(&self) -> (r: Self)
        ensures
            r@ == self@,
    {
        FnSig { inputs: clone_types(self.inputs.as_slice()), output: self.output.clone() }
    }
}

/// Mathematical value of a [`CallSite`].
pub struct CallSiteView {
    pub tpe: Option<DotnetTypeRefView>,
    pub name: Seq<char>,
    pub signature: FnSigView,
    pub is_static: bool,
}

/// Everything needed to emit one call instruction: the type the callee is
/// a member of (`None` for a local call), the callee's name, its
/// signature, and whether the call is static.
#[derive(Debug, PartialEq, Eq)]
pub struct CallSite {
    pub tpe: Option<DotnetTypeRef>,
    pub name: String,
    pub signature: FnSig,
    pub is_static: bool,
}

impl View for CallSite {
    type V = CallSiteView;

    open spec fn view(&self) -> CallSiteView {
        CallSiteView {
            tpe: match self.tpe {
                Some(t) => Some(t@),
                None => None,
            },
            name: self.name@,
            signature: self.signature@,
            is_static: self.is_static,
        }
    }
}

impl CallSite {
    /// A call site with the given target type, callee name, signature and
    /// static flag.
    pub fn new(tpe: Option<DotnetTypeRef>, name: String, signature: FnSig, is_static: bool) -> (r:
        Self)
        ensures
            r@ == (CallSiteView {
                tpe: match tpe {
                    Some(t) => Some(t@),
                    None => None::<DotnetTypeRefView>,
                },
                name: name@,
                signature: signature@,
                is_static,
            }),
    {
        CallSite { tpe, name, signature, is_static }
    }
}

impl Clone for CallSite {
    fn clone(&self) -> (r: Self)
        ensures
            r@ == self@,
    {
        CallSite {
            tpe: match &self.tpe {
                Some(t) => Some(t.clone()),
                None => None,
            },
            name: self.name.clone(),
            signature: self.signature.clone(),
            is_static: self.is_static,
        }
    }
}

/// Mathematical value of a [`CILOp`].
pub enum CILOpView {
    Comment(Seq<char>),
    LdcI32(i32),
    LdcI64(i64),
    LdStr(Seq<char>),
    LdNull,
    LDLoc(u32),
    GoTo(u32),
    BEq(u32),
    Ret,
    Throw,
    Call(CallSiteView),
    CallVirt(CallSiteView),
    NewObj(CallSiteView),
}

/// One instruction of the flat target instruction sequence.  The order of
/// instructions within an emitted sequence is significant and preserved
/// exactly.  Branch instructions carry an opaque successor-block index
/// that a later assembly pass resolves to an address.
#[derive(Debug, PartialEq, Eq)]
pub enum CILOp {
    /// A non-executable marker.
    Comment(String),
    /// Push a 32-bit integer constant.
    LdcI32(i32),
    /// Push a 64-bit integer constant.
    LdcI64(i64),
    /// Push a string literal.
    LdStr(String),
    /// Push a null reference.
    LdNull,
    /// Push the value of a local slot.
    LDLoc(u32),
    /// Unconditional jump to a successor block.
    GoTo(u32),
    /// Jump to a successor block when the two topmost stack values are equal.
    BEq(u32),
    /// Return from the enclosing function.
    Ret,
    /// Throw the exception object on top of the stack.
    Throw,
    /// Direct call of the described call site.
    Call(CallSite),
    /// Virtual dispatch call of the described call site.
    CallVirt(CallSite),
    /// Allocate an object and run the described constructor on it.
    NewObj(CallSite),
}

impl View for CILOp {
    type V = CILOpView;

    open spec fn view(&self) -> CILOpView {
        match self {
            CILOp::Comment(s) => CILOpView::Comment(s@),
            CILOp::LdcI32(v) => CILOpView::LdcI32(*v),
            CILOp::LdcI64(v) => CILOpView::LdcI64(*v),
            CILOp::LdStr(s) => CILOpView::LdStr(s@),
            CILOp::LdNull => CILOpView::LdNull,
            CILOp::LDLoc(l) => CILOpView::LDLoc(*l),
            CILOp::GoTo(t) => CILOpView::GoTo(*t),
            CILOp::BEq(t) => CILOpView::BEq(*t),
            CILOp::Ret => CILOpView::Ret,
            CILOp::Throw => CILOpView::Throw,
            CILOp::Call(c) => CILOpView::Call(c@),
            CILOp::CallVirt(c) => CILOpView::CallVirt(c@),
            CILOp::NewObj(c) => CILOpView::NewObj(c@),
        }
    }
}

impl Clone for CILOp {
    fn clone(&self) -> (r: Self)
        ensures
            r@ == self@,
    {
        match self {
            CILOp::Comment(s) => CILOp::Comment(s.clone()),
            CILOp::LdcI32(v) => CILOp::LdcI32(*v),
            CILOp::LdcI64(v) => CILOp::LdcI64(*v),
            CILOp::LdStr(s) => CILOp::LdStr(s.clone()),
            CILOp::LdNull => CILOp::LdNull,
            CILOp::LDLoc(l) => CILOp::LDLoc(*l),
            CILOp::GoTo(t) => CILOp::GoTo(*t),
            CILOp::BEq(t) => CILOp::BEq(*t),
            CILOp::Ret => CILOp::Ret,
            CILOp::Throw => CILOp::Throw,
            CILOp::Call(c) => CILOp::Call(c.clone()),
            CILOp::CallVirt(c) => CILOp::CallVirt(c.clone()),
            CILOp::NewObj(c) => CILOp::NewObj(c.clone()),
        }
    }
}

/// Mathematical value of an instruction sequence.
pub open spec fn ops_view(s: Seq<CILOp>) -> Seq<CILOpView> {
    s.map_values(|op: CILOp| op@)
}

pub broadcast proof fn lemma_ops_view_add(a: Seq<CILOp>, b: Seq<CILOp>)
    ensures
        #[trigger] ops_view(a + b) == ops_view(a) + ops_view(b),
{
    assert(ops_view(a + b) =~= ops_view(a) + ops_view(b));
}

pub broadcast proof fn lemma_ops_view_push(s: Seq<CILOp>, op: CILOp)
    ensures
        #[trigger] ops_view(s.push(op)) == ops_view(s).push(op@),
{
    assert(ops_view(s.push(op)) =~= ops_view(s).push(op@));
}

/// Clones an instruction sequence, keeping its mathematical value.
pub fn clone_ops(s: &[CILOp]) -> (r: Vec<CILOp>)
    ensures
        ops_view(r@) == ops_view(s@),
{
    let mut r: Vec<CILOp> = Vec::new();
    let mut i: usize = 0;
    while i < s.len()
        invariant
            i <= s@.len(),
            r@.len() == i,
            forall|j: int| 0 <= j < i ==> r@[j]@ == s@[j]@,
        decreases s@.len() - i,
    {
        let op = s[i].clone();
        r.push(op);
        i = i + 1;
    }
    proof {
        assert(ops_view(r@) =~= ops_view(s@));
    }
    r
}

} // verus!

