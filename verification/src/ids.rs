//! Compact identifier newtypes used across the harness event ledger.

use crate::error::Error;
use vstd::prelude::*;

verus! {

/// Whether `c` has the Unicode `White_Space` property.
pub open spec fn is_white_space(c: char) -> bool {
    let n = c as u32;
    ||| 0x09 <= n <= 0x0d
    ||| n == 0x20
    ||| n == 0x85
    ||| n == 0xa0
    ||| n == 0x1680
    ||| 0x2000 <= n <= 0x200a
    ||| n == 0x2028
    ||| n == 0x2029
    ||| n == 0x202f
    ||| n == 0x205f
    ||| n == 0x3000
}

/// Whether a text is empty once surrounding white space is trimmed.
pub open spec fn is_blank(s: Seq<char>) -> bool {
    forall|i: int| 0 <= i < s.len() ==> is_white_space(#[trigger] s[i])
}

/// Decides [`is_white_space`] for one character.
pub fn char_is_white_space(c: char) -> (r: bool)
    ensures
        r == is_white_space(c),
{
    let n = c as u32;
    (0x09 <= n && n <= 0x0d) || n == 0x20 || n == 0x85 || n == 0xa0 || n == 0x1680 || (0x2000
        <= n && n <= 0x200a) || n == 0x2028 || n == 0x2029 || n == 0x202f || n == 0x205f || n
        == 0x3000
}

/// Decides [`is_blank`]: true when `s.trim()` would be empty.
pub fn str_is_blank(s: &str) -> (r: bool)
    ensures
        r == is_blank(s@),
{
    let n = s.unicode_len();
    let mut i: usize = 0;
    while i < n
        invariant
            n == s@.len(),
            i <= n,
            forall|k: int| 0 <= k < i ==> is_white_space(#[trigger] s@[k]),
        decreases n - i,
    {
        let c = s.get_char(i);
        if !char_is_white_space(c) {
            return false;
        }
        i = i + 1;
    }
    true
}

/// Lexicographic order of texts by character code: the order in which a run
/// keeps the identifiers it has used.
pub open spec fn text_lt(a: Seq<char>, b: Seq<char>) -> bool
    decreases a.len(),
{
    if b.len() == 0 {
        false
    } else if a.len() == 0 {
        true
    } else if a[0] != b[0] {
        a[0] < b[0]
    } else {
        text_lt(a.drop_first(), b.drop_first())
    }
}

/// No text precedes itself.
pub proof fn lemma_text_lt_irreflexive(a: Seq<char>)
    ensures
        !text_lt(a, a),
    decreases a.len(),
{
    if a.len() > 0 {
        lemma_text_lt_irreflexive(a.drop_first());
    }
}

/// Of two different texts, one precedes the other.
pub proof fn lemma_text_lt_total(a: Seq<char>, b: Seq<char>)
    requires
        a != b,
    ensures
        text_lt(a, b) || text_lt(b, a),
    decreases a.len(),
{
    if a.len() > 0 && b.len() > 0 && a[0] == b[0] {
        if a.drop_first() == b.drop_first() {
            assert(a =~= seq![a[0]] + a.drop_first());
            assert(b =~= seq![b[0]] + b.drop_first());
        }
        lemma_text_lt_total(a.drop_first(), b.drop_first());
    } else if a.len() == 0 && b.len() == 0 {
        assert(a =~= b);
    }
}

/// The order is transitive.
pub proof fn lemma_text_lt_transitive(a: Seq<char>, b: Seq<char>, c: Seq<char>)
    requires
        text_lt(a, b),
        text_lt(b, c),
    ensures
        text_lt(a, c),
    decreases a.len(),
{
    if a.len() > 0 && a[0] == b[0] && b[0] == c[0] {
        lemma_text_lt_transitive(a.drop_first(), b.drop_first(), c.drop_first());
    }
}

/// Each text strictly precedes every later one: the list is sorted and
/// holds no text twice.
pub open spec fn strictly_ordered(s: Seq<Seq<char>>) -> bool {
    forall|i: int, j: int| 0 <= i < j < s.len() ==> text_lt(#[trigger] s[i], #[trigger] s[j])
}

/// Decides [`text_lt`].
pub fn str_lt(a: &str, b: &str) -> (r: bool)
    ensures
        r == text_lt(a@, b@),
{
    let n = a.unicode_len();
    let m = b.unicode_len();
    let mut i: usize = 0;
    assert(a@.skip(0) =~= a@);
    assert(b@.skip(0) =~= b@);
    while i < n && i < m
        invariant
            n == a@.len(),
            m == b@.len(),
            i <= n,
            i <= m,
            text_lt(a@, b@) == text_lt(a@.skip(i as int), b@.skip(i as int)),
        decreases n - i,
    {
        let x = a.get_char(i);
        let y = b.get_char(i);
        assert(a@.skip(i as int)[0] == x && b@.skip(i as int)[0] == y);
        if x != y {
            return x < y;
        }
        assert(a@.skip(i as int).drop_first() =~= a@.skip(i + 1));
        assert(b@.skip(i as int).drop_first() =~= b@.skip(i + 1));
        i = i + 1;
    }
    assert(a@.skip(i as int).len() == n - i);
    assert(b@.skip(i as int).len() == m - i);
    i < m
}

/// Identifier for one durable harness run.
#[derive(Debug, Eq, Hash, PartialOrd, Ord)]
pub struct RunId(String);

impl View for RunId {
    type V = Seq<char>;

    closed spec fn view(&self) -> Seq<char> {
        self.0@
    }
}

impl Clone for RunId {
    fn clone(&self) -> (r: Self)
        ensures
            r == *self,
    {
        RunId(self.0.clone())
    }
}

impl PartialEq for RunId {
    fn eq(&self, other: &Self) -> (r: bool) {
        self.0 == other.0
    }
}

impl vstd::std_specs::cmp::PartialEqSpecImpl for RunId {
    open spec fn obeys_eq_spec() -> bool {
        true
    }

    open spec fn eq_spec(&self, other: &Self) -> bool {
        self@ == other@
    }
}

impl RunId {
    /// Creates a new identifier from a non-blank string.
    pub fn new(value: &str) -> (r: Result<Self, Error>)
        ensures
            is_blank(value@) ==> (r matches Err(e) && e@ == crate::error::ErrorView::EmptyIdentifier("RunId"@)),
            !is_blank(value@) ==> (r matches Ok(id) && id@ == value@),
    {
        if str_is_blank(value) {
            return Err(Error::EmptyIdentifier("RunId"));
        }
        Ok(RunId(value.to_owned()))
    }

    /// Returns the identifier as a string slice.
    pub fn as_str(&self) -> (r: &str)
        ensures
            r@ == self@,
    {
        self.0.as_str()
    }

    /// Returns the identifier's text as an owned string.
    pub fn to_string(&self) -> (r: String)
        ensures
            r@ == self@,
    {
        self.0.clone()
    }
}

/// Identifier for one model/tool turn inside a run.
#[derive(Debug, Eq, Hash, PartialOrd, Ord)]
pub struct TurnId(String);

impl View for TurnId {
    type V = Seq<char>;

    closed spec fn view(&self) -> Seq<char> {
        self.0@
    }
}

impl Clone for TurnId {
    fn clone(&self) -> (r: Self)
        ensures
            r == *self,
    {
        TurnId(self.0.clone())
    }
}

impl PartialEq for TurnId {
    fn eq(&self, other: &Self) -> (r: bool) {
        self.0 == other.0
    }
}

impl vstd::std_specs::cmp::PartialEqSpecImpl for TurnId {
    open spec fn obeys_eq_spec() -> bool {
        true
    }

    open spec fn eq_spec(&self, other: &Self) -> bool {
        self@ == other@
    }
}

impl TurnId {
    /// Creates a new identifier from a non-blank string.
    pub fn new(value: &str) -> (r: Result<Self, Error>)
        ensures
            is_blank(value@) ==> (r matches Err(e) && e@ == crate::error::ErrorView::EmptyIdentifier("TurnId"@)),
            !is_blank(value@) ==> (r matches Ok(id) && id@ == value@),
    {
        if str_is_blank(value) {
            return Err(Error::EmptyIdentifier("TurnId"));
        }
        Ok(TurnId(value.to_owned()))
    }

    /// Returns the identifier as a string slice.
    pub fn as_str(&self) -> (r: &str)
        ensures
            r@ == self@,
    {
        self.0.as_str()
    }

    /// Returns the identifier's text as an owned string.
    pub fn to_string(&self) -> (r: String)
        ensures
            r@ == self@,
    {
        self.0.clone()
    }
}

/// Identifier for one bounded agent unit.
#[derive(Debug, Eq, Hash, PartialOrd, Ord)]
pub struct AgentId(String);

impl View for AgentId {
    type V = Seq<char>;

    closed spec fn view(&self) -> Seq<char> {
        self.0@
    }
}

impl Clone for AgentId {
    fn clone(&self) -> (r: Self)
        ensures
            r == *self,
    {
        AgentId(self.0.clone())
    }
}

impl PartialEq for AgentId {
    fn eq(&self, other: &Self) -> (r: bool) {
        self.0 == other.0
    }
}

impl vstd::std_specs::cmp::PartialEqSpecImpl for AgentId {
    open spec fn obeys_eq_spec() -> bool {
        true
    }

    open spec fn eq_spec(&self, other: &Self) -> bool {
        self@ == other@
    }
}

impl AgentId {
    /// Creates a new identifier from a non-blank string.
    pub fn new(value: &str) -> (r: Result<Self, Error>)
        ensures
            is_blank(value@) ==> (r matches Err(e) && e@ == crate::error::ErrorView::EmptyIdentifier("AgentId"@)),
            !is_blank(value@) ==> (r matches Ok(id) && id@ == value@),
    {
        if str_is_blank(value) {
            return Err(Error::EmptyIdentifier("AgentId"));
        }
        Ok(AgentId(value.to_owned()))
    }

    /// Returns the identifier as a string slice.
    pub fn as_str(&self) -> (r: &str)
        ensures
            r@ == self@,
    {
        self.0.as_str()
    }

    /// Returns the identifier's text as an owned string.
    pub fn to_string(&self) -> (r: String)
        ensures
            r@ == self@,
    {
        self.0.clone()
    }
}

/// Identifier for a human or host actor that decides approvals.
#[derive(Debug, Eq, Hash, PartialOrd, Ord)]
pub struct ActorId(String);

impl View for ActorId {
    type V = Seq<char>;

    closed spec fn view(&self) -> Seq<char> {
        self.0@
    }
}

impl Clone for ActorId {
    fn clone(&self) -> (r: Self)
        ensures
            r == *self,
    {
        ActorId(self.0.clone())
    }
}

impl PartialEq for ActorId {
    fn eq(&self, other: &Self) -> (r: bool) {
        self.0 == other.0
    }
}

impl vstd::std_specs::cmp::PartialEqSpecImpl for ActorId {
    open spec fn obeys_eq_spec() -> bool {
        true
    }

    open spec fn eq_spec(&self, other: &Self) -> bool {
        self@ == other@
    }
}

impl ActorId {
    /// Creates a new identifier from a non-blank string.
    pub fn new(value: &str) -> (r: Result<Self, Error>)
        ensures
            is_blank(value@) ==> (r matches Err(e) && e@ == crate::error::ErrorView::EmptyIdentifier("ActorId"@)),
            !is_blank(value@) ==> (r matches Ok(id) && id@ == value@),
    {
        if str_is_blank(value) {
            return Err(Error::EmptyIdentifier("ActorId"));
        }
        Ok(ActorId(value.to_owned()))
    }

    /// Returns the identifier as a string slice.
    pub fn as_str(&self) -> (r: &str)
        ensures
            r@ == self@,
    {
        self.0.as_str()
    }

    /// Returns the identifier's text as an owned string.
    pub fn to_string(&self) -> (r: String)
        ensures
            r@ == self@,
    {
        self.0.clone()
    }
}

/// Identifier for one proposed tool invocation.
#[derive(Debug, Eq, Hash, PartialOrd, Ord)]
pub struct ToolCallId(String);

impl View for ToolCallId {
    type V = Seq<char>;

    closed spec fn view(&self) -> Seq<char> {
        self.0@
    }
}

impl Clone for ToolCallId {
    fn clone(&self) -> (r: Self)
        ensures
            r == *self,
    {
        ToolCallId(self.0.clone())
    }
}

impl PartialEq for ToolCallId {
    fn eq(&self, other: &Self) -> (r: bool) {
        self.0 == other.0
    }
}

impl vstd::std_specs::cmp::PartialEqSpecImpl for ToolCallId {
    open spec fn obeys_eq_spec() -> bool {
        true
    }

    open spec fn eq_spec(&self, other: &Self) -> bool {
        self@ == other@
    }
}

impl ToolCallId {
    /// Creates a new identifier from a non-blank string.
    pub fn new(value: &str) -> (r: Result<Self, Error>)
        ensures
            is_blank(value@) ==> (r matches Err(e) && e@ == crate::error::ErrorView::EmptyIdentifier("ToolCallId"@)),
            !is_blank(value@) ==> (r matches Ok(id) && id@ == value@),
    {
        if str_is_blank(value) {
            return Err(Error::EmptyIdentifier("ToolCallId"));
        }
        Ok(ToolCallId(value.to_owned()))
    }

    /// Returns the identifier as a string slice.
    pub fn as_str(&self) -> (r: &str)
        ensures
            r@ == self@,
    {
        self.0.as_str()
    }

    /// Returns the identifier's text as an owned string.
    pub fn to_string(&self) -> (r: String)
        ensures
            r@ == self@,
    {
        self.0.clone()
    }
}

/// Identifier for a durable artifact emitted by a run.
#[derive(Debug, Eq, Hash, PartialOrd, Ord)]
pub struct ArtifactId(String);

impl View for ArtifactId {
    type V = Seq<char>;

    closed spec fn view(&self) -> Seq<char> {
        self.0@
    }
}

impl Clone for ArtifactId {
    fn clone(&self) -> (r: Self)
        ensures
            r == *self,
    {
        ArtifactId(self.0.clone())
    }
}

impl PartialEq for ArtifactId {
    fn eq(&self, other: &Self) -> (r: bool) {
        self.0 == other.0
    }
}

impl vstd::std_specs::cmp::PartialEqSpecImpl for ArtifactId {
    open spec fn obeys_eq_spec() -> bool {
        true
    }

    open spec fn eq_spec(&self, other: &Self) -> bool {
        self@ == other@
    }
}

impl ArtifactId {
    /// Creates a new identifier from a non-blank string.
    pub fn new(value: &str) -> (r: Result<Self, Error>)
        ensures
            is_blank(value@) ==> (r matches Err(e) && e@ == crate::error::ErrorView::EmptyIdentifier("ArtifactId"@)),
            !is_blank(value@) ==> (r matches Ok(id) && id@ == value@),
    {
        if str_is_blank(value) {
            return Err(Error::EmptyIdentifier("ArtifactId"));
        }
        Ok(ArtifactId(value.to_owned()))
    }

    /// Returns the identifier as a string slice.
    pub fn as_str(&self) -> (r: &str)
        ensures
            r@ == self@,
    {
        self.0.as_str()
    }

    /// Returns the identifier's text as an owned string.
    pub fn to_string(&self) -> (r: String)
        ensures
            r@ == self@,
    {
        self.0.clone()
    }
}

/// Stable registered tool name.
#[derive(Debug, Eq, Hash, PartialOrd, Ord)]
pub struct ToolName(String);

impl View for ToolName {
    type V = Seq<char>;

    closed spec fn view(&self) -> Seq<char> {
        self.0@
    }
}

impl Clone for ToolName {
    fn clone(&self) -> (r: Self)
        ensures
            r == *self,
    {
        ToolName(self.0.clone())
    }
}

impl PartialEq for ToolName {
    fn eq(&self, other: &Self) -> (r: bool) {
        self.0 == other.0
    }
}

impl vstd::std_specs::cmp::PartialEqSpecImpl for ToolName {
    open spec fn obeys_eq_spec() -> bool {
        true
    }

    open spec fn eq_spec(&self, other: &Self) -> bool {
        self@ == other@
    }
}

impl ToolName {
    /// Creates a new identifier from a non-blank string.
    pub fn new(value: &str) -> (r: Result<Self, Error>)
        ensures
            is_blank(value@) ==> (r matches Err(e) && e@ == crate::error::ErrorView::EmptyIdentifier("ToolName"@)),
            !is_blank(value@) ==> (r matches Ok(id) && id@ == value@),
    {
        if str_is_blank(value) {
            return Err(Error::EmptyIdentifier("ToolName"));
        }
        Ok(ToolName(value.to_owned()))
    }

    /// Returns the identifier as a string slice.
    pub fn as_str(&self) -> (r: &str)
        ensures
            r@ == self@,
    {
        self.0.as_str()
    }

    /// Returns the identifier's text as an owned string.
    pub fn to_string(&self) -> (r: String)
        ensures
            r@ == self@,
    {
        self.0.clone()
    }
}

/// Stable model identifier as selected by policy.
#[derive(Debug, Eq, Hash, PartialOrd, Ord)]
pub struct ModelName(String);

impl View for ModelName {
    type V = Seq<char>;

    closed spec fn view(&self) -> Seq<char> {
        self.0@
    }
}

impl Clone for ModelName {
    fn clone(&self) -> (r: Self)
        ensures
            r == *self,
    {
        ModelName(self.0.clone())
    }
}

impl PartialEq for ModelName {
    fn eq(&self, other: &Self) -> (r: bool) {
        self.0 == other.0
    }
}

impl vstd::std_specs::cmp::PartialEqSpecImpl for ModelName {
    open spec fn obeys_eq_spec() -> bool {
        true
    }

    open spec fn eq_spec(&self, other: &Self) -> bool {
        self@ == other@
    }
}

impl ModelName {
    /// Creates a new identifier from a non-blank string.
    pub fn new(value: &str) -> (r: Result<Self, Error>)
        ensures
            is_blank(value@) ==> (r matches Err(e) && e@ == crate::error::ErrorView::EmptyIdentifier("ModelName"@)),
            !is_blank(value@) ==> (r matches Ok(id) && id@ == value@),
    {
        if str_is_blank(value) {
            return Err(Error::EmptyIdentifier("ModelName"));
        }
        Ok(ModelName(value.to_owned()))
    }

    /// Returns the identifier as a string slice.
    pub fn as_str(&self) -> (r: &str)
        ensures
            r@ == self@,
    {
        self.0.as_str()
    }

    /// Returns the identifier's text as an owned string.
    pub fn to_string(&self) -> (r: String)
        ensures
            r@ == self@,
    {
        self.0.clone()
    }
}

} // verus!
