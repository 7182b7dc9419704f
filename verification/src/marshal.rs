use vstd::prelude::*;

verus! {

/// The subset of VM values that the bridge moves across the host boundary,
/// held as plain data: arbitrary-precision integers as decimal text, doubles
/// as their IEEE bit pattern, and every variant the marshaller does not yet
/// support collapsed into `Unsupported` with a description of the variant.
#[derive(Debug)]
pub enum VmValue {
    Null,
    Bool(bool),
    Unit,
    /// Arbitrary-precision unsigned integer, rendered as decimal digits.
    Nat(String),
    /// Arbitrary-precision signed integer, rendered as decimal digits with
    /// an optional leading sign.
    Int(String),
    /// Double-precision float, as its IEEE 754 bit pattern.
    FloatBits(u64),
    Char(char),
    Text(String),
    /// Optional-of-value; the VM's "no value" is its own null variant.
    Opt(Box<VmValue>),
    /// A VM variant with no host representation; carries its description.
    Unsupported(String),
}

/// Mathematical model of a `VmValue`.
pub enum VmVal {
    Null,
    Bool(bool),
    Unit,
    Nat(Seq<char>),
    Int(Seq<char>),
    FloatBits(u64),
    Char(char),
    Text(Seq<char>),
    Opt(Box<VmVal>),
    Unsupported(Seq<char>),
}

/// Host-visible value representation: the host's native null, boolean,
/// "undefined / absent" marker, double (as bits), or text.
#[derive(Debug)]
pub enum HostValue {
    Null,
    Bool(bool),
    Undefined,
    /// Double-precision number, as its IEEE 754 bit pattern.
    NumberBits(u64),
    Text(String),
}

/// Mathematical model of a `HostValue`.
pub enum HostVal {
    Null,
    Bool(bool),
    Undefined,
    NumberBits(u64),
    Text(Seq<char>),
}

/// The model of a `VmValue`, variant by variant.
pub open spec fn vm_val_of(v: VmValue) -> VmVal
    decreases v,
{
    match v {
        VmValue::Null => VmVal::Null,
        VmValue::Bool(b) => VmVal::Bool(b),
        VmValue::Unit => VmVal::Unit,
        VmValue::Nat(s) => VmVal::Nat(s@),
        VmValue::Int(s) => VmVal::Int(s@),
        VmValue::FloatBits(bits) => VmVal::FloatBits(bits),
        VmValue::Char(c) => VmVal::Char(c),
        VmValue::Text(s) => VmVal::Text(s@),
        VmValue::Opt(inner) => VmVal::Opt(Box::new(vm_val_of(*inner))),
        VmValue::Unsupported(kind) => VmVal::Unsupported(kind@),
    }
}

impl View for VmValue {
    type V = VmVal;

    open spec fn view(&self) -> VmVal {
        vm_val_of(*self)
    }
}

impl View for HostValue {
    type V = HostVal;

    open spec fn view(&self) -> HostVal {
        match self {
            HostValue::Null => HostVal::Null,
            HostValue::Bool(b) => HostVal::Bool(*b),
            HostValue::Undefined => HostVal::Undefined,
            HostValue::NumberBits(bits) => HostVal::NumberBits(*bits),
            HostValue::Text(s) => HostVal::Text(s@),
        }
    }
}

/// Outbound marshalling map, by VM variant: null to host null, boolean to
/// host boolean, unit to the absence marker, integers to their exact decimal
/// text, doubles bit-for-bit, characters to single-character text, text to
/// text, optionals unwrapped recursively; everything else fails with the
/// variant's description.
pub open spec fn spec_to_host(v: VmVal) -> Result<HostVal, Seq<char>>
    decreases v,
{
    match v {
        VmVal::Null => Ok(HostVal::Null),
        VmVal::Bool(b) => Ok(HostVal::Bool(b)),
        VmVal::Unit => Ok(HostVal::Undefined),
        VmVal::Nat(s) => Ok(HostVal::Text(s)),
        VmVal::Int(s) => Ok(HostVal::Text(s)),
        VmVal::FloatBits(bits) => Ok(HostVal::NumberBits(bits)),
        VmVal::Char(c) => Ok(HostVal::Text(seq![c])),
        VmVal::Text(s) => Ok(HostVal::Text(s)),
        VmVal::Opt(inner) => spec_to_host(*inner),
        VmVal::Unsupported(kind) => Err(kind),
    }
}

/// Inbound marshalling map: each host value has exactly one VM image.
pub open spec fn spec_to_vm(h: HostVal) -> VmVal {
    match h {
        HostVal::Null => VmVal::Null,
        HostVal::Bool(b) => VmVal::Bool(b),
        HostVal::Undefined => VmVal::Unit,
        HostVal::NumberBits(bits) => VmVal::FloatBits(bits),
        HostVal::Text(s) => VmVal::Text(s),
    }
}

/// Relies on std's `String::from` for `char`: the returned string holds
/// exactly the given character.
#[verifier::external_body]
fn char_text(c: char) -> (r: String)
    ensures
        r@ == seq![c],
{
    String::from(c)
}

/// Convert a VM value to its host representation, or report the variant
/// that has no host representation yet.
pub fn to_host(v: &VmValue) -> (r: Result<HostValue, String>)
    ensures
        (match r {
            Ok(h) => spec_to_host(v@) == Ok::<HostVal, Seq<char>>(h@),
            Err(e) => spec_to_host(v@) == Err::<HostVal, Seq<char>>(e@),
        }),
    decreases *v,
{
    match v {
        VmValue::Null => Ok(HostValue::Null),
        VmValue::Bool(b) => Ok(HostValue::Bool(*b)),
        VmValue::Unit => Ok(HostValue::Undefined),
        VmValue::Nat(s) => Ok(HostValue::Text(s.clone())),
        VmValue::Int(s) => Ok(HostValue::Text(s.clone())),
        VmValue::FloatBits(bits) => Ok(HostValue::NumberBits(*bits)),
        VmValue::Char(c) => Ok(HostValue::Text(char_text(*c))),
        VmValue::Text(s) => Ok(HostValue::Text(s.clone())),
        VmValue::Opt(inner) => to_host(&**inner),
        VmValue::Unsupported(kind) => Err(kind.clone()),
    }
}

/// Convert a host value back to a VM value. Every host value is accepted;
/// the decimal-text images of the VM's integers come back as text, which
/// marshals outward to the same host value.
pub fn to_vm(h: &HostValue) -> (r: VmValue)
    ensures
        r@ == spec_to_vm(h@),
{
    match h {
        HostValue::Null => VmValue::Null,
        HostValue::Bool(b) => VmValue::Bool(*b),
        HostValue::Undefined => VmValue::Unit,
        HostValue::NumberBits(bits) => VmValue::FloatBits(*bits),
        HostValue::Text(s) => VmValue::Text(s.clone()),
    }
}

/// Every host value survives the inbound trip exactly: marshalling the VM
/// image of a host value outward yields that same host value.
pub proof fn lemma_host_round_trip(h: HostVal)
    ensures
        spec_to_host(spec_to_vm(h)) == Ok::<HostVal, Seq<char>>(h),
{
}

/// Marshalling round-trip: for every VM value the marshaller supports,
/// re-marshalling its host image through the VM yields the same host image.
pub proof fn lemma_marshal_round_trip(v: VmVal)
    requires
        spec_to_host(v) is Ok,
    ensures
        spec_to_host(spec_to_vm(spec_to_host(v)->Ok_0)) == spec_to_host(v),
{
    lemma_host_round_trip(spec_to_host(v)->Ok_0);
}

} // verus!
