//! The expression shapes that the rule reads.

use crate::text::str_eq;
use vstd::prelude::*;

verus! {

/// A range of the source text, by the byte offsets of its start and its end.
#[derive(Clone, Copy, Debug, PartialEq, Eq, Structural)]
pub struct Span {
    pub start: u32,
    pub end: u32,
}

impl Span {
    pub fn new(start: u32, end: u32) -> (span: Span)
        ensures
            span == (Span { start, end }),
    {
        Span { start, end }
    }
}

/// The operator of a logical expression.
#[derive(Clone, Copy, Debug, PartialEq, Eq, Structural)]
pub enum LogicalOperator {
    /// `||`
    Or,
    /// `&&`
    And,
    /// `??`
    Coalesce,
}

/// The operator of a binary expression.
#[derive(Clone, Copy, Debug, PartialEq, Eq, Structural)]
pub enum BinaryOperator {
    /// `==`
    Equality,
    /// `!=`
    Inequality,
    /// `===`
    StrictEquality,
    /// `!==`
    StrictInequality,
    /// `<`
    LessThan,
    /// `<=`
    LessEqualThan,
    /// `>`
    GreaterThan,
    /// `>=`
    GreaterEqualThan,
    /// `+`
    Addition,
    /// `-`
    Subtraction,
    /// `*`
    Multiplication,
    /// `/`
    Division,
    /// `%`
    Remainder,
    /// `**`
    Exponential,
    /// `<<`
    ShiftLeft,
    /// `>>`
    ShiftRight,
    /// `>>>`
    ShiftRightZeroFill,
    /// `|`
    BitwiseOR,
    /// `^`
    BitwiseXOR,
    /// `&`
    BitwiseAnd,
    /// `in`
    In,
    /// `instanceof`
    Instanceof,
}

/// A reference to a variable: `array`.
#[derive(Debug)]
pub struct IdentifierReference {
    pub name: String,
}

/// A literal, by its text as it stands in the source: `0`, `0x0`, `"0"`.
#[derive(Debug)]
pub struct Literal {
    pub raw: String,
}

/// A property access whose property name is known from the source text alone:
/// `array.length`, `array?.length`, `array["length"]`.
#[derive(Debug)]
pub struct MemberExpression {
    pub object: Expression,
    pub property: String,
    /// The property is written in brackets, as a literal key.
    pub computed: bool,
    /// The access is written `?.`.
    pub optional: bool,
}

/// A call: `array.every(Boolean)`. The arguments are not part of the shape.
#[derive(Debug)]
pub struct CallExpression {
    pub callee: Expression,
    /// The call is written `?.(`.
    pub optional: bool,
    pub span: Span,
}

/// A binary expression: `array.length === 0`.
#[derive(Debug)]
pub struct BinaryExpression {
    pub left: Expression,
    pub operator: BinaryOperator,
    pub right: Expression,
    pub span: Span,
}

/// A logical expression: `left || right`, `left && right`, `left ?? right`.
#[derive(Debug)]
pub struct LogicalExpression {
    pub left: Expression,
    pub operator: LogicalOperator,
    pub right: Expression,
}

/// An expression, as far as the rule tells expressions apart.
#[derive(Debug)]
pub enum Expression {
    Identifier(IdentifierReference),
    Literal(Literal),
    MemberExpression(Box<MemberExpression>),
    CallExpression(Box<CallExpression>),
    BinaryExpression(Box<BinaryExpression>),
    LogicalExpression(Box<LogicalExpression>),
    /// `( expression )`
    ParenthesizedExpression(Box<Expression>),
    /// An expression under a construct that changes its static type only:
    /// `x as T`, `x satisfies T`, `x!`, `<T>x`, `x<T>`.
    TypeAssertion(Box<Expression>),
    /// Any other expression.
    Other,
}

impl Expression {
    /// The expression inside all the parentheses around this one.
    pub open spec fn unparenthesized(self) -> Expression
        decreases self,
    {
        match self {
            Expression::ParenthesizedExpression(inner) => inner.unparenthesized(),
            _ => self,
        }
    }

    /// The expression inside all the parentheses and type assertions around
    /// this one.
    pub open spec fn inner_expression(self) -> Expression
        decreases self,
    {
        match self {
            Expression::ParenthesizedExpression(inner) => inner.inner_expression(),
            Expression::TypeAssertion(inner) => inner.inner_expression(),
            _ => self,
        }
    }

    /// The name of the identifier that this expression is, under parentheses
    /// and type assertions.
    pub open spec fn identifier_name(self) -> Option<Seq<char>> {
        match self.inner_expression() {
            Expression::Identifier(ident) => Some(ident.name@),
            _ => None,
        }
    }

    /// The property access that this expression is, under parentheses and
    /// type assertions.
    pub open spec fn member_expr(self) -> Option<MemberExpression> {
        match self.inner_expression() {
            Expression::MemberExpression(member) => Some(*member),
            _ => None,
        }
    }

    /// This expression is a literal whose source text is `raw`.
    pub open spec fn has_raw(self, raw: Seq<char>) -> bool {
        self matches Expression::Literal(literal) && literal.raw@ == raw
    }

    /// Strips the parentheses around this expression.
    pub fn without_parenthesized(&self) -> (stripped: &Expression)
        ensures
            *stripped == self.unparenthesized(),
        decreases self,
    {
        match self {
            Expression::ParenthesizedExpression(inner) => inner.without_parenthesized(),
            _ => self,
        }
    }

    /// Strips the parentheses and type assertions around this expression.
    pub fn get_inner_expression(&self) -> (inner: &Expression)
        ensures
            *inner == self.inner_expression(),
        decreases self,
    {
        match self {
            Expression::ParenthesizedExpression(inner) => inner.get_inner_expression(),
            Expression::TypeAssertion(inner) => inner.get_inner_expression(),
            _ => self,
        }
    }

    /// The identifier under the parentheses and type assertions, if this
    /// expression is one.
    pub fn get_identifier_reference(&self) -> (found: Option<&IdentifierReference>)
        ensures
            match found {
                Some(ident) => self.inner_expression() == Expression::Identifier(*ident),
                None => self.identifier_name() is None,
            },
    {
        match self.get_inner_expression() {
            Expression::Identifier(ident) => Some(ident),
            _ => None,
        }
    }

    /// The property access under the parentheses and type assertions, if this
    /// expression is one.
    pub fn get_member_expr(&self) -> (found: Option<&MemberExpression>)
        ensures
            match found {
                Some(member) => self.member_expr() == Some(*member),
                None => self.member_expr() is None,
            },
    {
        match self.get_inner_expression() {
            Expression::MemberExpression(member) => Some(member),
            _ => None,
        }
    }

    /// Whether this expression is a literal written exactly as `raw`.
    pub fn is_raw(&self, raw: &str) -> (exact: bool)
        ensures
            exact == self.has_raw(raw@),
    {
        match self {
            Expression::Literal(literal) => str_eq(literal.raw.as_str(), raw),
            _ => false,
        }
    }

    /// Whether this expression is, under parentheses and type assertions, the
    /// identifier `name`.
    pub fn is_specific_id(&self, name: &str) -> (same: bool)
        ensures
            same == (self.identifier_name() == Some(name@)),
    {
        match self.get_inner_expression() {
            Expression::Identifier(ident) => str_eq(ident.name.as_str(), name),
            _ => false,
        }
    }
}

impl MemberExpression {
    /// Whether this is the access `object.property`, written with a dot or
    /// with a literal key.
    pub open spec fn accesses(self, object: Seq<char>, property: Seq<char>) -> bool {
        self.object.identifier_name() == Some(object) && self.property@ == property
    }

    /// The expression whose property is accessed.
    pub fn object(&self) -> (object: &Expression)
        ensures
            *object == self.object,
    {
        &self.object
    }

    /// The name of the accessed property.
    pub fn static_property_name(&self) -> (name: &str)
        ensures
            name@ == self.property@,
    {
        self.property.as_str()
    }

    /// Whether this is the access `object.property`.
    pub fn is_specific_member_access(&self, object: &str, property: &str) -> (same: bool)
        ensures
            same == self.accesses(object@, property@),
    {
        self.object.is_specific_id(object) && str_eq(self.property.as_str(), property)
    }
}

} // verus!
