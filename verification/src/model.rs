//! The data model: function records, tag mappings, and joined functions.
//!
//! These types hold, as plain values, exactly what the pipeline reads from
//! the two remote listings: the identifier that joins them, the fields that
//! are displayed, and the key/value tags. Fields the remote may omit are
//! optional, as on the wire.

use vstd::prelude::*;

use humansize::FileSize;
use humansize::file_size_opts;

verus! {

/// One key/value tag attached to a resource.
#[derive(Debug, PartialEq)]
pub struct Tag {
    pub key: String,
    pub value: String,
}

/// The view of a [`Tag`]: both strings as character sequences.
pub struct TagV {
    pub key: Seq<char>,
    pub value: Seq<char>,
}

impl View for Tag {
    type V = TagV;

    open spec fn view(&self) -> TagV {
        TagV { key: self.key@, value: self.value@ }
    }
}

impl DeepView for Tag {
    type V = TagV;

    open spec fn deep_view(&self) -> TagV {
        self@
    }
}

impl Clone for Tag {
    fn clone(&self) -> (r: Self)
        ensures
            r == *self,
    {
        Tag { key: self.key.clone(), value: self.value.clone() }
    }
}

/// One deployed function as the listing reports it: the stable identifier
/// used as the join key, the display name, the runtime identifier, and the
/// code size in bytes.
#[derive(Debug, PartialEq)]
pub struct FunctionRecord {
    pub function_name: Option<String>,
    pub function_arn: Option<String>,
    pub runtime: Option<String>,
    pub code_size: Option<i64>,
}

/// The view of a [`FunctionRecord`].
pub struct FunctionRecordV {
    pub function_name: Option<Seq<char>>,
    pub function_arn: Option<Seq<char>>,
    pub runtime: Option<Seq<char>>,
    pub code_size: Option<i64>,
}

impl View for FunctionRecord {
    type V = FunctionRecordV;

    open spec fn view(&self) -> FunctionRecordV {
        FunctionRecordV {
            function_name: self.function_name.deep_view(),
            function_arn: self.function_arn.deep_view(),
            runtime: self.runtime.deep_view(),
            code_size: self.code_size,
        }
    }
}

impl DeepView for FunctionRecord {
    type V = FunctionRecordV;

    open spec fn deep_view(&self) -> FunctionRecordV {
        self@
    }
}

impl Clone for FunctionRecord {
    fn clone(&self) -> (r: Self)
        ensures
            r == *self,
    {
        FunctionRecord {
            function_name: clone_opt_string(&self.function_name),
            function_arn: clone_opt_string(&self.function_arn),
            runtime: clone_opt_string(&self.runtime),
            code_size: self.code_size,
        }
    }
}

/// One mapping from a resource identifier to its tags, as the tag listing
/// reports it.
#[derive(Debug, PartialEq)]
pub struct TagMapping {
    pub resource_arn: Option<String>,
    pub tags: Option<Vec<Tag>>,
}

/// The view of a [`TagMapping`].
pub struct TagMappingV {
    pub resource_arn: Option<Seq<char>>,
    pub tags: Option<Seq<TagV>>,
}

impl View for TagMapping {
    type V = TagMappingV;

    open spec fn view(&self) -> TagMappingV {
        TagMappingV { resource_arn: self.resource_arn.deep_view(), tags: self.tags.deep_view() }
    }
}

impl DeepView for TagMapping {
    type V = TagMappingV;

    open spec fn deep_view(&self) -> TagMappingV {
        self@
    }
}

/// A single function with its associated tags: the result of joining one
/// tag mapping to the record it refers to.
#[derive(Debug, PartialEq)]
pub struct Func {
    pub config: FunctionRecord,
    pub tags: Vec<Tag>,
}

/// The view of a [`Func`].
pub struct FuncV {
    pub config: FunctionRecordV,
    pub tags: Seq<TagV>,
}

impl View for Func {
    type V = FuncV;

    open spec fn view(&self) -> FuncV {
        FuncV { config: self.config@, tags: self.tags.deep_view() }
    }
}

impl DeepView for Func {
    type V = FuncV;

    open spec fn deep_view(&self) -> FuncV {
        self@
    }
}

/// The string an absent optional string reads as: the empty one.
pub open spec fn opt_key(o: Option<Seq<char>>) -> Seq<char> {
    match o {
        Option::Some(s) => s,
        Option::None => Seq::empty(),
    }
}

impl FuncV {
    /// The recorded code size, an absent size reading as zero.
    pub open spec fn size_or_zero(self) -> i64 {
        match self.config.code_size {
            Option::Some(s) => s,
            Option::None => 0i64,
        }
    }

    /// The display name the presenter sorts by, absent read as empty.
    pub open spec fn name_key(self) -> Seq<char> {
        opt_key(self.config.function_name)
    }

    /// The runtime identifier the presenter sorts by, absent read as empty.
    pub open spec fn runtime_key(self) -> Seq<char> {
        opt_key(self.config.runtime)
    }
}

/// Clones an optional string, keeping the value exactly.
pub fn clone_opt_string(o: &Option<String>) -> (r: Option<String>)
    ensures
        r == *o,
{
    match o {
        Option::Some(s) => Option::Some(s.clone()),
        Option::None => Option::None,
    }
}

/// What humansize renders a byte count as, under the conventional options.
pub uninterp spec fn human_size_of(bytes: int) -> Seq<char>;

/// Relies on humansize's `FileSize::file_size` for `i64` with the
/// `CONVENTIONAL` options (1024 divisor, decimal unit names, up to two
/// decimal places): the rendering depends on the byte count alone. The
/// crate refuses a negative count; that refusal is read as the empty
/// string here.
#[verifier::external_body]
fn format_file_size(bytes: i64) -> (r: String)
    ensures
        r@ == human_size_of(bytes as int),
{
    bytes.file_size(file_size_opts::CONVENTIONAL).unwrap_or_default()
}

impl Func {
    /// The display name, when the listing carried one.
    pub fn name(&self) -> (r: Option<String>)
        ensures
            r == self.config.function_name,
    {
        clone_opt_string(&self.config.function_name)
    }

    /// The runtime identifier, when the listing carried one.
    pub fn runtime(&self) -> (r: Option<String>)
        ensures
            r == self.config.runtime,
    {
        clone_opt_string(&self.config.runtime)
    }

    /// The code size in bytes, when the listing carried one.
    pub fn code_size(&self) -> (r: Option<i64>)
        ensures
            r == self.config.code_size,
    {
        self.config.code_size
    }

    /// The size of the function's code, rendered for human display; an
    /// absent size renders as zero bytes.
    pub fn human_size(&self) -> (r: String)
        ensures
            r@ == human_size_of(self@.size_or_zero() as int),
    {
        let bytes = match self.config.code_size {
            Option::Some(s) => s,
            Option::None => 0,
        };
        format_file_size(bytes)
    }
}

} // verus!
