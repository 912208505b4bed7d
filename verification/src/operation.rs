//! The operations under comparison and what is known of each before it runs:
//! its name, how many operands it takes, the algebraic type it applies to and
//! the size of the batch in which it is timed.

use vstd::prelude::*;
use vstd::string::StringExecFns;

verus! {

/// One of the two curves of the cycle.
#[derive(Clone, Copy, Debug, PartialEq, Eq, Structural)]
pub enum Curve {
    Helios,
    Selene,
}

/// An algebraic type of which paired samples are drawn: the scalar field of a
/// curve, or the group of its points.
#[derive(Clone, Copy, Debug, PartialEq, Eq, Structural)]
pub enum Element {
    Scalar(Curve),
    Point(Curve),
}

/// A part of the system that is compared and timed as a whole: the contested
/// scalar field, or the points of one curve.
#[derive(Clone, Copy, Debug, PartialEq, Eq, Structural)]
pub enum Component {
    Field,
    Points(Curve),
}

/// Which of the two implementations a value came from.
#[derive(Clone, Copy, Debug, PartialEq, Eq, Structural)]
pub enum Side {
    Candidate,
    Reference,
}

/// The field operations, in the order in which they are compared.
#[derive(Clone, Copy, Debug, PartialEq, Eq, Structural)]
pub enum FieldOp {
    Add,
    Mul,
    Sub,
    Square,
    Double,
    Invert,
    /// The square root of the square of the first operand.
    SqrtOfSquare,
    /// The first operand raised to the integer that the second one represents.
    Pow,
    Neg,
    IsOdd,
    IsEven,
}

/// The point operations, in the order in which they are compared.
#[derive(Clone, Copy, Debug, PartialEq, Eq, Structural)]
pub enum PointOp {
    /// The compressed encoding of the first operand.
    Compress,
    /// Decoding the compressed encoding of the first operand again.
    Decompress,
    Add,
    /// The first operand multiplied by the scalar operand.
    Mul,
    /// The generator of the group itself.
    Generator,
    /// The generator multiplied by the scalar operand.
    MulGenerator,
    Sub,
    Double,
    Neg,
}

/// An operation of either implementation whose result the comparison looks at.
#[derive(Clone, Copy, Debug, PartialEq, Eq, Structural)]
pub enum Operation {
    /// Reading into the candidate a sample that the reference drew.
    Generate(Element),
    Field(FieldOp),
    Point(Curve, PointOp),
}

/// What is fixed of an operation before any sample is drawn.
#[derive(Clone, Debug, PartialEq, Eq)]
pub struct OperationDescriptor {
    pub name: String,
    pub arity: u8,
    pub applies_to: Element,
    /// Applications per timed measurement; `None` where the operation is
    /// compared but not timed.
    pub batch_size: Option<u32>,
}

/// The field operations in comparison order.
pub open spec fn field_ops() -> Seq<FieldOp> {
    seq![
        FieldOp::Add,
        FieldOp::Mul,
        FieldOp::Sub,
        FieldOp::Square,
        FieldOp::Double,
        FieldOp::Invert,
        FieldOp::SqrtOfSquare,
        FieldOp::Pow,
        FieldOp::Neg,
        FieldOp::IsOdd,
        FieldOp::IsEven,
    ]
}

/// The components in the order in which they are compared and timed.
pub open spec fn components() -> Seq<Component> {
    seq![Component::Field, Component::Points(Curve::Helios), Component::Points(Curve::Selene)]
}

/// The point operations in comparison order.
pub open spec fn point_ops() -> Seq<PointOp> {
    seq![
        PointOp::Compress,
        PointOp::Decompress,
        PointOp::Add,
        PointOp::Mul,
        PointOp::Generator,
        PointOp::MulGenerator,
        PointOp::Sub,
        PointOp::Double,
        PointOp::Neg,
    ]
}

impl Curve {
    /// What [`label`](Self::label) returns.
    pub open spec fn spec_label(self) -> Seq<char> {
        match self {
            Curve::Helios => "helios"@,
            Curve::Selene => "selene"@,
        }
    }

    /// The curve's name in lower case.
    pub fn label(self) -> (label: &'static str)
        ensures
            label@ == self.spec_label(),
    {
        match self {
            Curve::Helios => "helios",
            Curve::Selene => "selene",
        }
    }
}

impl FieldOp {
    /// Place of the operation in the comparison order.
    pub open spec fn position(self) -> int {
        match self {
            FieldOp::Add => 0,
            FieldOp::Mul => 1,
            FieldOp::Sub => 2,
            FieldOp::Square => 3,
            FieldOp::Double => 4,
            FieldOp::Invert => 5,
            FieldOp::SqrtOfSquare => 6,
            FieldOp::Pow => 7,
            FieldOp::Neg => 8,
            FieldOp::IsOdd => 9,
            FieldOp::IsEven => 10,
        }
    }

    /// What [`verb`](Self::verb) returns.
    pub open spec fn spec_verb(self) -> Seq<char> {
        match self {
            FieldOp::Add => "add"@,
            FieldOp::Mul => "mul"@,
            FieldOp::Sub => "sub"@,
            FieldOp::Square => "sq"@,
            FieldOp::Double => "dbl"@,
            FieldOp::Invert => "inv"@,
            FieldOp::SqrtOfSquare => "sqrt"@,
            FieldOp::Pow => "pow"@,
            FieldOp::Neg => "neg"@,
            FieldOp::IsOdd => "odd"@,
            FieldOp::IsEven => "even"@,
        }
    }

    /// What [`arity`](Self::arity) returns.
    pub open spec fn spec_arity(self) -> nat {
        match self {
            FieldOp::Add | FieldOp::Mul | FieldOp::Sub | FieldOp::Pow => 2,
            _ => 1,
        }
    }

    /// What [`batch_size`](Self::batch_size) returns.
    pub open spec fn spec_batch_size(self) -> Option<u32> {
        match self {
            FieldOp::Add | FieldOp::Sub | FieldOp::Double | FieldOp::Neg => Some(1000000u32),
            FieldOp::Mul | FieldOp::Square => Some(300000u32),
            FieldOp::Invert => Some(1000u32),
            FieldOp::SqrtOfSquare | FieldOp::Pow => Some(500u32),
            FieldOp::IsOdd | FieldOp::IsEven => None,
        }
    }

    /// All field operations, in comparison order.
    pub fn all() -> (ops: Vec<FieldOp>)
        ensures
            ops@ == field_ops(),
    {
        let ops: Vec<FieldOp> = vec![
            FieldOp::Add,
            FieldOp::Mul,
            FieldOp::Sub,
            FieldOp::Square,
            FieldOp::Double,
            FieldOp::Invert,
            FieldOp::SqrtOfSquare,
            FieldOp::Pow,
            FieldOp::Neg,
            FieldOp::IsOdd,
            FieldOp::IsEven,
        ];
        assert(ops@ =~= field_ops());
        ops
    }

    /// The short word for the operation that names are made of.
    pub fn verb(self) -> (verb: &'static str)
        ensures
            verb@ == self.spec_verb(),
    {
        match self {
            FieldOp::Add => "add",
            FieldOp::Mul => "mul",
            FieldOp::Sub => "sub",
            FieldOp::Square => "sq",
            FieldOp::Double => "dbl",
            FieldOp::Invert => "inv",
            FieldOp::SqrtOfSquare => "sqrt",
            FieldOp::Pow => "pow",
            FieldOp::Neg => "neg",
            FieldOp::IsOdd => "odd",
            FieldOp::IsEven => "even",
        }
    }

    /// Number of sampled operands that the operation reads.
    pub fn arity(self) -> (arity: u8)
        ensures
            arity == self.spec_arity(),
    {
        match self {
            FieldOp::Add | FieldOp::Mul | FieldOp::Sub | FieldOp::Pow => 2,
            _ => 1,
        }
    }

    /// Applications per timed measurement: the cheaper the operation, the
    /// larger the batch. Addition, subtraction, doubling and negation run a
    /// million times, multiplication and squaring three hundred thousand
    /// times, inversion a thousand times, square root and power five hundred
    /// times. The parity tests are not timed.
    pub fn batch_size(self) -> (size: Option<u32>)
        ensures
            size == self.spec_batch_size(),
    {
        match self {
            FieldOp::Add | FieldOp::Sub | FieldOp::Double | FieldOp::Neg => Some(1000000),
            FieldOp::Mul | FieldOp::Square => Some(300000),
            FieldOp::Invert => Some(1000),
            FieldOp::SqrtOfSquare | FieldOp::Pow => Some(500),
            FieldOp::IsOdd | FieldOp::IsEven => None,
        }
    }
}

impl PointOp {
    /// Place of the operation in the comparison order.
    pub open spec fn position(self) -> int {
        match self {
            PointOp::Compress => 0,
            PointOp::Decompress => 1,
            PointOp::Add => 2,
            PointOp::Mul => 3,
            PointOp::Generator => 4,
            PointOp::MulGenerator => 5,
            PointOp::Sub => 6,
            PointOp::Double => 7,
            PointOp::Neg => 8,
        }
    }

    /// What [`verb`](Self::verb) returns.
    pub open spec fn spec_verb(self) -> Seq<char> {
        match self {
            PointOp::Compress => "compress"@,
            PointOp::Decompress => "decompress"@,
            PointOp::Add => "add"@,
            PointOp::Mul => "mul"@,
            PointOp::Generator => "gen"@,
            PointOp::MulGenerator => "mul-gen"@,
            PointOp::Sub => "sub"@,
            PointOp::Double => "dbl"@,
            PointOp::Neg => "neg"@,
        }
    }

    /// What [`arity`](Self::arity) returns.
    pub open spec fn spec_arity(self) -> nat {
        match self {
            PointOp::Generator => 0,
            PointOp::Add | PointOp::Mul | PointOp::Sub => 2,
            _ => 1,
        }
    }

    /// What [`batch_size`](Self::batch_size) returns.
    pub open spec fn spec_batch_size(self) -> Option<u32> {
        match self {
            PointOp::Add | PointOp::Sub | PointOp::Double => Some(10000u32),
            PointOp::Mul | PointOp::MulGenerator => Some(50u32),
            _ => None,
        }
    }

    /// All point operations, in comparison order.
    pub fn all() -> (ops: Vec<PointOp>)
        ensures
            ops@ == point_ops(),
    {
        let ops: Vec<PointOp> = vec![
            PointOp::Compress,
            PointOp::Decompress,
            PointOp::Add,
            PointOp::Mul,
            PointOp::Generator,
            PointOp::MulGenerator,
            PointOp::Sub,
            PointOp::Double,
            PointOp::Neg,
        ];
        assert(ops@ =~= point_ops());
        ops
    }

    /// The short word for the operation that names are made of.
    pub fn verb(self) -> (verb: &'static str)
        ensures
            verb@ == self.spec_verb(),
    {
        match self {
            PointOp::Compress => "compress",
            PointOp::Decompress => "decompress",
            PointOp::Add => "add",
            PointOp::Mul => "mul",
            PointOp::Generator => "gen",
            PointOp::MulGenerator => "mul-gen",
            PointOp::Sub => "sub",
            PointOp::Double => "dbl",
            PointOp::Neg => "neg",
        }
    }

    /// Number of sampled operands that the operation reads; the scalar of a
    /// multiplication counts.
    pub fn arity(self) -> (arity: u8)
        ensures
            arity == self.spec_arity(),
    {
        match self {
            PointOp::Generator => 0,
            PointOp::Add | PointOp::Mul | PointOp::Sub => 2,
            _ => 1,
        }
    }

    /// Applications per timed measurement: ten thousand for the group law,
    /// fifty for a scalar multiplication. Encoding, decoding, the generator
    /// and negation are not timed.
    pub fn batch_size(self) -> (size: Option<u32>)
        ensures
            size == self.spec_batch_size(),
    {
        match self {
            PointOp::Add | PointOp::Sub | PointOp::Double => Some(10000),
            PointOp::Mul | PointOp::MulGenerator => Some(50),
            _ => None,
        }
    }
}

impl Element {
    /// What [`curve`](Self::curve) returns.
    pub open spec fn spec_curve(self) -> Curve {
        match self {
            Element::Scalar(curve) => curve,
            Element::Point(curve) => curve,
        }
    }

    /// What [`kind_label`](Self::kind_label) returns.
    pub open spec fn spec_kind_label(self) -> Seq<char> {
        match self {
            Element::Scalar(_) => "scalar"@,
            Element::Point(_) => "point"@,
        }
    }

    /// The curve that the type belongs to.
    pub fn curve(self) -> (curve: Curve)
        ensures
            curve == self.spec_curve(),
    {
        match self {
            Element::Scalar(curve) => curve,
            Element::Point(curve) => curve,
        }
    }

    /// `"scalar"` or `"point"`.
    pub fn kind_label(self) -> (label: &'static str)
        ensures
            label@ == self.spec_kind_label(),
    {
        match self {
            Element::Scalar(_) => "scalar",
            Element::Point(_) => "point",
        }
    }
}

impl Operation {
    /// The algebraic type whose values the operation works on. The contested
    /// field is the scalar field of Helios.
    pub open spec fn spec_applies_to(self) -> Element {
        match self {
            Operation::Generate(element) => element,
            Operation::Field(_) => Element::Scalar(Curve::Helios),
            Operation::Point(curve, _) => Element::Point(curve),
        }
    }

    /// What [`arity`](Self::arity) returns.
    pub open spec fn spec_arity(self) -> nat {
        match self {
            Operation::Generate(_) => 1,
            Operation::Field(op) => op.spec_arity(),
            Operation::Point(_, op) => op.spec_arity(),
        }
    }

    /// What [`batch_size`](Self::batch_size) returns.
    pub open spec fn spec_batch_size(self) -> Option<u32> {
        match self {
            Operation::Generate(_) => None,
            Operation::Field(op) => op.spec_batch_size(),
            Operation::Point(_, op) => op.spec_batch_size(),
        }
    }

    /// What the name starts with: the component, or the sampled type.
    pub open spec fn spec_subject(self) -> Seq<char> {
        match self {
            Operation::Generate(element) => element.spec_curve().spec_label() + "-"@
                + element.spec_kind_label(),
            Operation::Field(_) => "field"@,
            Operation::Point(curve, _) => curve.spec_label(),
        }
    }

    /// What the name ends with: the operation itself.
    pub open spec fn spec_verb(self) -> Seq<char> {
        match self {
            Operation::Generate(_) => "sample"@,
            Operation::Field(op) => op.spec_verb(),
            Operation::Point(_, op) => op.spec_verb(),
        }
    }

    /// The name of the operation: subject, a hyphen, verb.
    pub open spec fn spec_name(self) -> Seq<char> {
        self.spec_subject() + "-"@ + self.spec_verb()
    }


    /// The algebraic type whose values the operation works on.
    pub fn applies_to(self) -> (element: Element)
        ensures
            element == self.spec_applies_to(),
    {
        match self {
            Operation::Generate(element) => element,
            Operation::Field(_) => Element::Scalar(Curve::Helios),
            Operation::Point(curve, _) => Element::Point(curve),
        }
    }

    /// Number of sampled operands that the operation reads.
    pub fn arity(self) -> (arity: u8)
        ensures
            arity == self.spec_arity(),
    {
        match self {
            Operation::Generate(_) => 1,
            Operation::Field(op) => op.arity(),
            Operation::Point(_, op) => op.arity(),
        }
    }

    /// Applications per timed measurement, where the operation is timed.
    pub fn batch_size(self) -> (size: Option<u32>)
        ensures
            size == self.spec_batch_size(),
    {
        match self {
            Operation::Generate(_) => None,
            Operation::Field(op) => op.batch_size(),
            Operation::Point(_, op) => op.batch_size(),
        }
    }

    /// The name under which the operation is reported, such as `field-add`
    /// or `selene-mul-gen`.
    pub fn name(self) -> (name: String)
        ensures
            name@ == self.spec_name(),
    {
        let mut name: String = match self {
            Operation::Generate(element) => {
                let mut subject: String = String::from_str(element.curve().label());
                subject.append("-");
                subject.append(element.kind_label());
                subject
            },
            Operation::Field(_) => String::from_str("field"),
            Operation::Point(curve, _) => String::from_str(curve.label()),
        };
        name.append("-");
        match self {
            Operation::Generate(_) => name.append("sample"),
            Operation::Field(op) => name.append(op.verb()),
            Operation::Point(_, op) => name.append(op.verb()),
        }
        name
    }

    /// Name, arity, type and batch size in one value.
    pub fn descriptor(self) -> (descriptor: OperationDescriptor)
        ensures
            descriptor.name@ == self.spec_name(),
            descriptor.arity == self.spec_arity(),
            descriptor.applies_to == self.spec_applies_to(),
            descriptor.batch_size == self.spec_batch_size(),
    {
        OperationDescriptor {
            name: self.name(),
            arity: self.arity(),
            applies_to: self.applies_to(),
            batch_size: self.batch_size(),
        }
    }
}

impl Component {
    /// Place of the component in the order of the run.
    pub open spec fn position(self) -> int {
        match self {
            Component::Field => 0,
            Component::Points(Curve::Helios) => 1,
            Component::Points(Curve::Selene) => 2,
        }
    }

    /// The component that follows in the order of the run.
    pub open spec fn spec_next(self) -> Option<Component> {
        match self {
            Component::Field => Some(Component::Points(Curve::Helios)),
            Component::Points(Curve::Helios) => Some(Component::Points(Curve::Selene)),
            Component::Points(Curve::Selene) => None,
        }
    }

    /// What [`group_name`](Self::group_name) returns.
    pub open spec fn spec_group_name(self) -> Seq<char> {
        match self {
            Component::Field => "helioselene-field-ops"@,
            Component::Points(Curve::Helios) => "helios-point-ops"@,
            Component::Points(Curve::Selene) => "selene-point-ops"@,
        }
    }

    /// All components, in the order of the run.
    pub fn all() -> (all: Vec<Component>)
        ensures
            all@ == components(),
    {
        let all: Vec<Component> = vec![
            Component::Field,
            Component::Points(Curve::Helios),
            Component::Points(Curve::Selene),
        ];
        assert(all@ =~= components());
        all
    }

    /// The component that follows in the order of the run, if any.
    pub fn next(self) -> (next: Option<Component>)
        ensures
            next == self.spec_next(),
    {
        match self {
            Component::Field => Some(Component::Points(Curve::Helios)),
            Component::Points(Curve::Helios) => Some(Component::Points(Curve::Selene)),
            Component::Points(Curve::Selene) => None,
        }
    }

    /// The name under which the component's measurements are grouped.
    pub fn group_name(self) -> (name: &'static str)
        ensures
            name@ == self.spec_group_name(),
    {
        match self {
            Component::Field => "helioselene-field-ops",
            Component::Points(Curve::Helios) => "helios-point-ops",
            Component::Points(Curve::Selene) => "selene-point-ops",
        }
    }

    /// The operations of the component, in comparison order.
    pub open spec fn spec_operations(self) -> Seq<Operation> {
        match self {
            Component::Field => Seq::new(field_ops().len(), |i: int| Operation::Field(field_ops()[i])),
            Component::Points(curve) => Seq::new(
                point_ops().len(),
                |i: int| Operation::Point(curve, point_ops()[i]),
            ),
        }
    }

    /// The operations of the component, in comparison order.
    pub fn operations(self) -> (ops: Vec<Operation>)
        ensures
            ops@ == self.spec_operations(),
    {
        let mut ops: Vec<Operation> = Vec::new();
        match self {
            Component::Field => {
                let all: Vec<FieldOp> = FieldOp::all();
                let mut i: usize = 0;
                while i < all.len()
                    invariant
                        i <= all.len(),
                        all@ == field_ops(),
                        ops.len() == i,
                        forall|j: int| 0 <= j < i ==> ops[j] == Operation::Field(field_ops()[j]),
                    decreases all.len() - i,
                {
                    ops.push(Operation::Field(all[i]));
                    i += 1;
                }
            },
            Component::Points(curve) => {
                let all: Vec<PointOp> = PointOp::all();
                let mut i: usize = 0;
                while i < all.len()
                    invariant
                        i <= all.len(),
                        all@ == point_ops(),
                        ops.len() == i,
                        forall|j: int|
                            0 <= j < i ==> ops[j] == Operation::Point(curve, point_ops()[j]),
                    decreases all.len() - i,
                {
                    ops.push(Operation::Point(curve, all[i]));
                    i += 1;
                }
            },
        }
        assert(ops@ =~= self.spec_operations());
        ops
    }
}

/// The order of the run lists every component, each at its position, and
/// the next component is the one at the next position.
pub proof fn lemma_components_complete(component: Component)
    ensures
        0 <= component.position() < components().len(),
        components()[component.position()] == component,
        component.spec_next() matches Some(next) ==> next.position() == component.position() + 1,
        component.spec_next() is None <==> component.position() + 1 == components().len(),
{
}

/// Every field operation is compared: the comparison order lists it, at its
/// position.
pub proof fn lemma_field_ops_complete(op: FieldOp)
    ensures
        0 <= op.position() < field_ops().len(),
        field_ops()[op.position()] == op,
{
}

/// Every point operation is compared: the comparison order lists it, at its
/// position.
pub proof fn lemma_point_ops_complete(op: PointOp)
    ensures
        0 <= op.position() < point_ops().len(),
        point_ops()[op.position()] == op,
{
}

} // verus!
