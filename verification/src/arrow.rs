//! The format dispatcher: from an explicit format name, or else the
//! extension of a file's path, to the record codec that reads or writes it.

use vstd::prelude::*;
use std::sync::Arc;
use crate::error::{InnoFileError, InnoFileResult};
use crate::io::Closeable;
use crate::text::{lowercase_of, option_text, path_extension_spec, str_eq, to_lowercase};
use crate::uri::{uri_ref_is_valid, uri_ref_path};
use crate::utils::path_extension;

verus! {

/// The schema of a record batch, carried as an opaque value.
#[verifier::external_type_specification]
#[verifier::external_body]
pub struct ExSchema(::arrow::datatypes::Schema);

/// A finite, non-restartable producer of record batches of type `B`.
pub trait ArrowReader<B>: Iterator<Item = InnoFileResult<B>> {
    /// The schema of the batches that the reader produces.
    fn schema(&self) -> Arc<::arrow::datatypes::Schema>;
}

/// A consumer of record batches of type `B` that has to be closed after
/// the last one.
pub trait ArrowWriter<B>: Closeable {
    /// Whether a write of `batch` in this state can succeed. Each
    /// implementation says what it promises.
    spec fn can_write(&self, batch: &B) -> bool;

    /// Whether a write of `batch` in this state can fail with `error`. Each
    /// implementation says what it promises.
    spec fn can_fail(&self, batch: &B, error: InnoFileError) -> bool;

    /// Writes the batches in order and stops at the first that fails.
    ///
    /// An empty slice always succeeds and leaves the writer as it was. The
    /// first batch is written in the state in which the writer was handed
    /// over. On success every batch was written with success, each in some
    /// state of the writer. On failure the same holds of the batches before
    /// the failing one, which is one of the slice, and the error is that of
    /// the failing write.
    fn write_batches(&mut self, batches: &[&B]) -> (r: InnoFileResult<()>)
        ensures
            batches@.len() == 0 ==> r is Ok && &*final(self) == &*old(self),
            exists|states: Seq<&Self>|
                {
                    &&& #[trigger] states.len() <= batches@.len()
                    &&& states.len() > 0 ==> states[0] == &*old(self)
                    &&& forall|j: int|
                        0 <= j < states.len() ==> #[trigger] states[j].can_write(batches@[j])
                    &&& match r {
                        Ok(_) => states.len() == batches@.len(),
                        Err(error) => {
                            &&& states.len() < batches@.len()
                            &&& exists|last: &Self|
                                {
                                    &&& #[trigger] last.can_fail(
                                        batches@[states.len() as int],
                                        error,
                                    )
                                    &&& states.len() == 0 ==> last == &*old(self)
                                }
                        },
                    }
                },
    {
        let ghost mut states: Seq<&Self> = Seq::empty();
        let mut i: usize = 0;
        while i < batches.len()
            invariant
                i <= batches.len(),
                states.len() == i,
                i == 0 ==> &*self == &*old(self),
                states.len() > 0 ==> states[0] == &*old(self),
                forall|j: int| 0 <= j < states.len() ==> #[trigger] states[j].can_write(batches@[j]),
            decreases batches.len() - i,
        {
            let ghost before: &Self = &*self;
            match self.write(batches[i]) {
                Ok(_) => {
                    proof {
                        states = states.push(before);
                    }
                },
                Err(error) => {
                    assert(before.can_fail(batches@[states.len() as int], error));
                    return Err(error);
                },
            }
            i += 1;
        }
        Ok(())
    }

    /// Writes one batch.
    fn write(&mut self, batch: &B) -> (r: InnoFileResult<()>)
        ensures
            match r {
                Ok(_) => old(self).can_write(batch),
                Err(error) => old(self).can_fail(batch, error),
            },
    ;
}

/// The delimiter of comma-separated text.
pub const COMMA: u8 = 44;

/// The delimiter of colon-separated text.
pub const COLON: u8 = 58;

/// The delimiter of pipe-separated text.
pub const PIPE: u8 = 124;

/// The delimiter of tab-separated text.
pub const TAB: u8 = 9;

/// How many leading records are sampled, at most, to infer a schema.
pub const SCHEMA_SAMPLE_CAP: usize = 100;

/// A family of record codecs.
#[derive(Debug, Clone, Copy, PartialEq, Eq, Structural)]
pub enum Codec {
    /// Delimiter-separated text with a header line.
    DelimitedText,
    /// JSON.
    Json,
    /// The ORC columnar format.
    Orc,
    /// The Parquet columnar format.
    Parquet,
}

/// How a JSON writer lays out its records.
#[derive(Debug, Clone, Copy, PartialEq, Eq, Structural)]
pub enum JsonLayout {
    /// One record per line.
    LineDelimited,
    /// One array that holds every record.
    Array,
}

/// The delimiter that a format name in lowercase stands for: `csv` the
/// comma, `dsv` the colon, `psv` the pipe, `tsv` the tab, any other name
/// none.
pub open spec fn delimiter_of(lowercase_format: Seq<char>) -> Option<u8> {
    if lowercase_format == "csv"@ {
        Some(COMMA)
    } else if lowercase_format == "dsv"@ {
        Some(COLON)
    } else if lowercase_format == "psv"@ {
        Some(PIPE)
    } else if lowercase_format == "tsv"@ {
        Some(TAB)
    } else {
        None
    }
}

/// The codec that a format name in lowercase selects: delimited text for
/// the four names that stand for a delimiter, then `json`, `orc` and
/// `parquet`; any other name selects none.
pub open spec fn codec_of(lowercase_format: Seq<char>) -> Option<Codec> {
    if delimiter_of(lowercase_format) is Some {
        Some(Codec::DelimitedText)
    } else if lowercase_format == "json"@ {
        Some(Codec::Json)
    } else if lowercase_format == "orc"@ {
        Some(Codec::Orc)
    } else if lowercase_format == "parquet"@ {
        Some(Codec::Parquet)
    } else {
        None
    }
}

/// The delimiter that a format name in lowercase stands for, if any.
pub fn delimiter_for(lowercase_format: &str) -> (r: Option<u8>)
    ensures
        r == delimiter_of(lowercase_format@),
{
    if str_eq(lowercase_format, "csv") {
        Some(COMMA)
    } else if str_eq(lowercase_format, "dsv") {
        Some(COLON)
    } else if str_eq(lowercase_format, "psv") {
        Some(PIPE)
    } else if str_eq(lowercase_format, "tsv") {
        Some(TAB)
    } else {
        None
    }
}

/// The codec that a format name in lowercase selects, if any.
pub fn codec_for(lowercase_format: &str) -> (r: Option<Codec>)
    ensures
        r == codec_of(lowercase_format@),
{
    if delimiter_for(lowercase_format).is_some() {
        Some(Codec::DelimitedText)
    } else if str_eq(lowercase_format, "json") {
        Some(Codec::Json)
    } else if str_eq(lowercase_format, "orc") {
        Some(Codec::Orc)
    } else if str_eq(lowercase_format, "parquet") {
        Some(Codec::Parquet)
    } else {
        None
    }
}

/// The delimiter of a delimited-text format, whatever the letter case of
/// its name.
///
/// Fails with `FileFormatNotSupported`, carrying the name as given, exactly
/// when the name in lowercase stands for no delimiter.
pub fn delimiter_from_file_format(file_format: &str) -> (r: InnoFileResult<u8>)
    ensures
        match delimiter_of(lowercase_of(file_format@)) {
            Some(delimiter) => r matches Ok(d) && d == delimiter,
            None => r matches Err(InnoFileError::FileFormatNotSupported(name)) && name@
                == file_format@,
        },
{
    let lowercase = to_lowercase(file_format);
    match delimiter_for(lowercase.as_str()) {
        Some(delimiter) => Ok(delimiter),
        None => Err(InnoFileError::FileFormatNotSupported(file_format.to_owned())),
    }
}

/// The format name that a dispatcher goes by: the explicit one where there
/// is one, else the extension of the path of the location.
pub open spec fn chosen_format(explicit: Option<Seq<char>>, location: Seq<char>) -> Option<
    Seq<char>,
> {
    match explicit {
        Some(name) => Some(name),
        None => path_extension_spec(uri_ref_path(location)),
    }
}

/// Chooses the format name that a dispatcher goes by.
///
/// An explicit name is returned as it stands, and the location is not
/// looked at. Without one the location has to be a well-formed URI
/// reference, else the call fails with `UriParse`; the name is then the
/// extension of its path, `None` where it has none.
pub fn choose_format(explicit: Option<String>, location: &str) -> (r: InnoFileResult<
    Option<String>,
>)
    ensures
        match r {
            Ok(name) => (explicit is Some || uri_ref_is_valid(location@)) && option_text(name)
                == chosen_format(option_text(explicit), location@),
            Err(e) => explicit is None && !uri_ref_is_valid(location@) && e is UriParse,
        },
{
    if explicit.is_some() {
        Ok(explicit)
    } else {
        path_extension(location)
    }
}

/// How to read the records of a file.
#[derive(Debug)]
pub enum ArrowReaderPlan {
    /// Delimited text with a header line, fields separated by `delimiter`.
    Csv { delimiter: u8, schema: Option<Arc<::arrow::datatypes::Schema>> },
    /// JSON, one record per line.
    Json { schema: Option<Arc<::arrow::datatypes::Schema>> },
    /// ORC; the file holds its schema.
    Orc,
    /// Parquet; the file holds its schema.
    Parquet,
}

impl ArrowReaderPlan {
    /// The codec that reads the file.
    pub open spec fn codec(self) -> Codec {
        match self {
            ArrowReaderPlan::Csv { .. } => Codec::DelimitedText,
            ArrowReaderPlan::Json { .. } => Codec::Json,
            ArrowReaderPlan::Orc => Codec::Orc,
            ArrowReaderPlan::Parquet => Codec::Parquet,
        }
    }

    /// Whether the schema has to be inferred from the file's records: a text
    /// codec was given none.
    pub open spec fn infers_schema(self) -> bool {
        match self {
            ArrowReaderPlan::Csv { schema, .. } => schema is None,
            ArrowReaderPlan::Json { schema } => schema is None,
            _ => false,
        }
    }

    /// How many leading records to sample for the schema before reading
    /// starts over from the first record: the fixed cap where the schema is
    /// inferred, `None` where nothing is sampled.
    pub fn sample_cap(&self) -> (r: Option<usize>)
        ensures
            r == if self.infers_schema() {
                Some(SCHEMA_SAMPLE_CAP)
            } else {
                None
            },
    {
        match self {
            ArrowReaderPlan::Csv { schema, .. } => if schema.is_none() {
                Some(SCHEMA_SAMPLE_CAP)
            } else {
                None
            },
            ArrowReaderPlan::Json { schema } => if schema.is_none() {
                Some(SCHEMA_SAMPLE_CAP)
            } else {
                None
            },
            _ => None,
        }
    }
}

/// How to write the records of a file.
#[derive(Debug)]
pub enum ArrowWriterPlan {
    /// Delimited text, fields separated by `delimiter`.
    Csv { delimiter: u8 },
    /// JSON with explicit nulls, laid out as `layout` says.
    Json { layout: JsonLayout },
    /// ORC, with the schema to write.
    Orc { schema: Arc<::arrow::datatypes::Schema> },
    /// Parquet, with the schema to write.
    Parquet { schema: Arc<::arrow::datatypes::Schema> },
}

impl ArrowWriterPlan {
    /// The codec that writes the file.
    pub open spec fn codec(self) -> Codec {
        match self {
            ArrowWriterPlan::Csv { .. } => Codec::DelimitedText,
            ArrowWriterPlan::Json { .. } => Codec::Json,
            ArrowWriterPlan::Orc { .. } => Codec::Orc,
            ArrowWriterPlan::Parquet { .. } => Codec::Parquet,
        }
    }
}

/// Selects the codec that reads a file.
#[derive(Debug)]
pub struct ArrowReaderBuilder {
    file_format: Option<String>,
    schema: Option<Arc<::arrow::datatypes::Schema>>,
}

impl Default for ArrowReaderBuilder {
    fn default() -> (r: Self)
        ensures
            r.file_format_text() is None,
            r.schema_ref() is None,
    {
        ArrowReaderBuilder::new()
    }
}

impl ArrowReaderBuilder {
    /// The explicit format name set so far.
    pub closed spec fn file_format_text(self) -> Option<Seq<char>> {
        option_text(self.file_format)
    }

    /// The schema supplied so far.
    pub closed spec fn schema_ref(self) -> Option<Arc<::arrow::datatypes::Schema>> {
        self.schema
    }

    /// A builder with neither a format name nor a schema.
    pub fn new() -> (r: Self)
        ensures
            r.file_format_text() is None,
            r.schema_ref() is None,
    {
        ArrowReaderBuilder { file_format: None, schema: None }
    }

    /// Sets or clears the explicit format name.
    pub fn with_file_format(self, file_format: Option<&str>) -> (r: Self)
        ensures
            r.file_format_text() == match file_format {
                Some(name) => Some(name@),
                None => None,
            },
            r.schema_ref() == self.schema_ref(),
    {
        let file_format = match file_format {
            Some(name) => Some(name.to_owned()),
            None => None,
        };
        ArrowReaderBuilder { file_format, schema: self.schema }
    }

    /// Sets or clears the schema to read with.
    pub fn with_schema(self, schema: Option<Arc<::arrow::datatypes::Schema>>) -> (r: Self)
        ensures
            r.file_format_text() == self.file_format_text(),
            r.schema_ref() == schema,
    {
        ArrowReaderBuilder { file_format: self.file_format, schema }
    }

    /// The explicit format name set so far.
    pub fn file_format(&self) -> (r: Option<&str>)
        ensures
            self.file_format_text() == match r {
                Some(name) => Some(name@),
                None => None,
            },
    {
        match &self.file_format {
            Some(name) => Some(name.as_str()),
            None => None,
        }
    }

    /// Whether `outcome` is what dispatching on the format name
    /// `file_format`, whose lowercase form is `lowercase_format`, yields.
    ///
    /// A name of delimited text yields that codec with the name's delimiter
    /// and the builder's schema; `json` yields JSON with the builder's
    /// schema; `orc` and `parquet` yield those codecs. Any other name is
    /// reported as not supported, carried as given.
    pub open spec fn dispatches_to(
        self,
        lowercase_format: Seq<char>,
        file_format: Seq<char>,
        outcome: InnoFileResult<ArrowReaderPlan>,
    ) -> bool {
        match codec_of(lowercase_format) {
            Some(Codec::DelimitedText) => {
                &&& outcome matches Ok(ArrowReaderPlan::Csv { delimiter, schema })
                &&& Some(delimiter) == delimiter_of(lowercase_format)
                &&& schema == self.schema_ref()
            },
            Some(Codec::Json) => {
                &&& outcome matches Ok(ArrowReaderPlan::Json { schema })
                &&& schema == self.schema_ref()
            },
            Some(Codec::Orc) => outcome matches Ok(ArrowReaderPlan::Orc),
            Some(Codec::Parquet) => outcome matches Ok(ArrowReaderPlan::Parquet),
            None => {
                &&& outcome matches Err(InnoFileError::FileFormatNotSupported(name))
                &&& name@ == file_format
            },
        }
    }

    /// Whether `outcome` is what resolving this builder for the file at
    /// `location` yields.
    ///
    /// The explicit format name comes first; without one the location has
    /// to be a well-formed URI reference, and the extension of its path is
    /// the name. No name at all is reported as format not found. The name
    /// is matched in lowercase.
    pub open spec fn resolves_to(
        self,
        location: Seq<char>,
        outcome: InnoFileResult<ArrowReaderPlan>,
    ) -> bool {
        if self.file_format_text() is None && !uri_ref_is_valid(location) {
            outcome matches Err(e) && e is UriParse
        } else {
            match chosen_format(self.file_format_text(), location) {
                None => outcome matches Err(InnoFileError::FileFormatNotFound),
                Some(name) => self.dispatches_to(lowercase_of(name), name, outcome),
            }
        }
    }

    /// Dispatches on a format name and its lowercase form.
    pub fn dispatch(self, lowercase_format: &str, file_format: String) -> (r: InnoFileResult<
        ArrowReaderPlan,
    >)
        ensures
            self.dispatches_to(lowercase_format@, file_format@, r),
    {
        match codec_for(lowercase_format) {
            Some(Codec::DelimitedText) => match delimiter_for(lowercase_format) {
                Some(delimiter) => Ok(ArrowReaderPlan::Csv { delimiter, schema: self.schema }),
                None => Err(InnoFileError::FileFormatNotSupported(file_format)),
            },
            Some(Codec::Json) => Ok(ArrowReaderPlan::Json { schema: self.schema }),
            Some(Codec::Orc) => Ok(ArrowReaderPlan::Orc),
            Some(Codec::Parquet) => Ok(ArrowReaderPlan::Parquet),
            None => Err(InnoFileError::FileFormatNotSupported(file_format)),
        }
    }

    fn resolve(self, location: &str) -> (r: InnoFileResult<ArrowReaderPlan>)
        ensures
            self.resolves_to(location@, r),
    {
        let chosen = match choose_format(self.file_format, location) {
            Ok(name) => name,
            Err(e) => {
                return Err(e);
            },
        };
        let builder = ArrowReaderBuilder { file_format: None, schema: self.schema };
        match chosen {
            None => Err(InnoFileError::FileFormatNotFound),
            Some(file_format) => {
                let lowercase = to_lowercase(file_format.as_str());
                builder.dispatch(lowercase.as_str(), file_format)
            },
        }
    }

    /// Selects the reader of the file at `path` for the blocking execution
    /// model.
    pub fn build_sync(self, path: &str) -> (r: InnoFileResult<ArrowReaderPlan>)
        ensures
            self.resolves_to(path@, r),
    {
        self.resolve(path)
    }

    /// Selects the reader of the file at `path` for the cooperative
    /// execution model; the selection is the one of the blocking model.
    pub fn build_async(self, path: &str) -> (r: InnoFileResult<ArrowReaderPlan>)
        ensures
            self.resolves_to(path@, r),
    {
        self.resolve(path)
    }
}

/// Selects the codec that writes a file.
#[derive(Debug)]
pub struct ArrowWriterBuilder {
    file_format: Option<String>,
    schema: Arc<::arrow::datatypes::Schema>,
}

impl ArrowWriterBuilder {
    /// The explicit format name set so far.
    pub closed spec fn file_format_text(self) -> Option<Seq<char>> {
        option_text(self.file_format)
    }

    /// The schema of the records to write.
    pub closed spec fn schema_ref(self) -> Arc<::arrow::datatypes::Schema> {
        self.schema
    }

    /// A builder for records of `schema`, without a format name.
    pub fn new(schema: Arc<::arrow::datatypes::Schema>) -> (r: Self)
        ensures
            r.file_format_text() is None,
            r.schema_ref() == schema,
    {
        ArrowWriterBuilder { file_format: None, schema }
    }

    /// Sets or clears the explicit format name.
    pub fn with_file_format(self, file_format: Option<&str>) -> (r: Self)
        ensures
            r.file_format_text() == match file_format {
                Some(name) => Some(name@),
                None => None,
            },
            r.schema_ref() == self.schema_ref(),
    {
        let file_format = match file_format {
            Some(name) => Some(name.to_owned()),
            None => None,
        };
        ArrowWriterBuilder { file_format, schema: self.schema }
    }

    /// The explicit format name set so far.
    pub fn file_format(&self) -> (r: Option<&str>)
        ensures
            self.file_format_text() == match r {
                Some(name) => Some(name@),
                None => None,
            },
    {
        match &self.file_format {
            Some(name) => Some(name.as_str()),
            None => None,
        }
    }

    /// Whether `outcome` is what dispatching on the format name
    /// `file_format`, whose lowercase form is `lowercase_format`, yields.
    ///
    /// A name of delimited text yields that codec with the name's
    /// delimiter; `json` yields line-delimited JSON; `orc` and `parquet`
    /// yield those codecs with the builder's schema. Any other name is
    /// reported as not supported, carried as given.
    pub open spec fn dispatches_to(
        self,
        lowercase_format: Seq<char>,
        file_format: Seq<char>,
        outcome: InnoFileResult<ArrowWriterPlan>,
    ) -> bool {
        match codec_of(lowercase_format) {
            Some(Codec::DelimitedText) => {
                &&& outcome matches Ok(ArrowWriterPlan::Csv { delimiter })
                &&& Some(delimiter) == delimiter_of(lowercase_format)
            },
            Some(Codec::Json) => {
                &&& outcome matches Ok(ArrowWriterPlan::Json { layout })
                &&& layout == JsonLayout::LineDelimited
            },
            Some(Codec::Orc) => {
                &&& outcome matches Ok(ArrowWriterPlan::Orc { schema })
                &&& schema == self.schema_ref()
            },
            Some(Codec::Parquet) => {
                &&& outcome matches Ok(ArrowWriterPlan::Parquet { schema })
                &&& schema == self.schema_ref()
            },
            None => {
                &&& outcome matches Err(InnoFileError::FileFormatNotSupported(name))
                &&& name@ == file_format
            },
        }
    }

    /// Whether `outcome` is what resolving this builder for the file at
    /// `location` yields; the format name is chosen as for reading.
    pub open spec fn resolves_to(
        self,
        location: Seq<char>,
        outcome: InnoFileResult<ArrowWriterPlan>,
    ) -> bool {
        if self.file_format_text() is None && !uri_ref_is_valid(location) {
            outcome matches Err(e) && e is UriParse
        } else {
            match chosen_format(self.file_format_text(), location) {
                None => outcome matches Err(InnoFileError::FileFormatNotFound),
                Some(name) => self.dispatches_to(lowercase_of(name), name, outcome),
            }
        }
    }

    /// Dispatches on a format name and its lowercase form.
    pub fn dispatch(self, lowercase_format: &str, file_format: String) -> (r: InnoFileResult<
        ArrowWriterPlan,
    >)
        ensures
            self.dispatches_to(lowercase_format@, file_format@, r),
    {
        match codec_for(lowercase_format) {
            Some(Codec::DelimitedText) => match delimiter_for(lowercase_format) {
                Some(delimiter) => Ok(ArrowWriterPlan::Csv { delimiter }),
                None => Err(InnoFileError::FileFormatNotSupported(file_format)),
            },
            Some(Codec::Json) => Ok(ArrowWriterPlan::Json { layout: JsonLayout::LineDelimited }),
            Some(Codec::Orc) => Ok(ArrowWriterPlan::Orc { schema: self.schema }),
            Some(Codec::Parquet) => Ok(ArrowWriterPlan::Parquet { schema: self.schema }),
            None => Err(InnoFileError::FileFormatNotSupported(file_format)),
        }
    }

    fn resolve(self, location: &str) -> (r: InnoFileResult<ArrowWriterPlan>)
        ensures
            self.resolves_to(location@, r),
    {
        let chosen = match choose_format(self.file_format, location) {
            Ok(name) => name,
            Err(e) => {
                return Err(e);
            },
        };
        let builder = ArrowWriterBuilder { file_format: None, schema: self.schema };
        match chosen {
            None => Err(InnoFileError::FileFormatNotFound),
            Some(file_format) => {
                let lowercase = to_lowercase(file_format.as_str());
                builder.dispatch(lowercase.as_str(), file_format)
            },
        }
    }

    /// Selects the writer of the file at `path` for the blocking execution
    /// model.
    pub fn build_sync(self, path: &str) -> (r: InnoFileResult<ArrowWriterPlan>)
        ensures
            self.resolves_to(path@, r),
    {
        self.resolve(path)
    }

    /// Selects the writer of the file at `path` for the cooperative
    /// execution model; the selection is the one of the blocking model.
    pub fn build_async(self, path: &str) -> (r: InnoFileResult<ArrowWriterPlan>)
        ensures
            self.resolves_to(path@, r),
    {
        self.resolve(path)
    }
}

/// The four names of delimited text differ from one another and from the
/// names of the other codecs.
pub proof fn lemma_format_names_differ()
    ensures
        "csv"@ != "dsv"@,
        "csv"@ != "psv"@,
        "csv"@ != "tsv"@,
        "dsv"@ != "psv"@,
        "dsv"@ != "tsv"@,
        "psv"@ != "tsv"@,
        "json"@.len() == 4,
        "orc"@ != "csv"@,
        "orc"@ != "dsv"@,
        "orc"@ != "psv"@,
        "orc"@ != "tsv"@,
        "parquet"@.len() == 7,
        "csv"@.len() == 3,
        "dsv"@.len() == 3,
        "psv"@.len() == 3,
        "tsv"@.len() == 3,
        "orc"@.len() == 3,
{
    reveal_strlit("csv");
    reveal_strlit("dsv");
    reveal_strlit("psv");
    reveal_strlit("tsv");
    reveal_strlit("json");
    reveal_strlit("orc");
    reveal_strlit("parquet");
    assert("csv"@[0] == 'c');
    assert("dsv"@[0] == 'd');
    assert("psv"@[0] == 'p');
    assert("tsv"@[0] == 't');
    assert("orc"@[0] == 'o');
}

/// The mapping from format name to delimiter is exhaustive and exact: each
/// delimiter belongs to one name, and a name outside the four has none.
pub proof fn lemma_delimiter_table(lowercase_format: Seq<char>)
    ensures
        delimiter_of(lowercase_format) == Some(COMMA) <==> lowercase_format == "csv"@,
        delimiter_of(lowercase_format) == Some(COLON) <==> lowercase_format == "dsv"@,
        delimiter_of(lowercase_format) == Some(PIPE) <==> lowercase_format == "psv"@,
        delimiter_of(lowercase_format) == Some(TAB) <==> lowercase_format == "tsv"@,
        delimiter_of(lowercase_format) is None <==> (lowercase_format != "csv"@
            && lowercase_format != "dsv"@ && lowercase_format != "psv"@ && lowercase_format
            != "tsv"@),
{
    lemma_format_names_differ();
}

/// The mapping from format name to codec is exhaustive and exact: each of
/// the seven names selects its codec, and any other name selects none.
pub proof fn lemma_codec_table(lowercase_format: Seq<char>)
    ensures
        codec_of(lowercase_format) == Some(Codec::DelimitedText) <==> (lowercase_format == "csv"@
            || lowercase_format == "dsv"@ || lowercase_format == "psv"@ || lowercase_format
            == "tsv"@),
        codec_of(lowercase_format) == Some(Codec::Json) <==> lowercase_format == "json"@,
        codec_of(lowercase_format) == Some(Codec::Orc) <==> lowercase_format == "orc"@,
        codec_of(lowercase_format) == Some(Codec::Parquet) <==> lowercase_format == "parquet"@,
{
    lemma_format_names_differ();
}

/// A format name that is not recognized is reported as not supported, by
/// the reader's and the writer's dispatcher alike, and the report names it
/// as it was given.
pub proof fn lemma_unrecognized_format_is_reported(
    reader: ArrowReaderBuilder,
    writer: ArrowWriterBuilder,
    lowercase_format: Seq<char>,
    file_format: Seq<char>,
    read: InnoFileResult<ArrowReaderPlan>,
    write: InnoFileResult<ArrowWriterPlan>,
)
    requires
        codec_of(lowercase_format) is None,
        reader.dispatches_to(lowercase_format, file_format, read),
        writer.dispatches_to(lowercase_format, file_format, write),
    ensures
        read matches Err(InnoFileError::FileFormatNotSupported(name)) && name@ == file_format,
        write matches Err(InnoFileError::FileFormatNotSupported(name)) && name@ == file_format,
{
}

/// Reading and writing agree on every format name: both select the same
/// codec and, for delimited text, the same delimiter, or both report the
/// name as not supported.
pub proof fn lemma_reader_and_writer_agree(
    reader: ArrowReaderBuilder,
    writer: ArrowWriterBuilder,
    lowercase_format: Seq<char>,
    file_format: Seq<char>,
    read: InnoFileResult<ArrowReaderPlan>,
    write: InnoFileResult<ArrowWriterPlan>,
)
    requires
        reader.dispatches_to(lowercase_format, file_format, read),
        writer.dispatches_to(lowercase_format, file_format, write),
    ensures
        read is Ok <==> write is Ok,
        read is Ok ==> read->Ok_0.codec() == write->Ok_0.codec(),
        read matches Ok(ArrowReaderPlan::Csv { delimiter: d, .. }) ==> (write matches Ok(
            ArrowWriterPlan::Csv { delimiter: e },
        ) && d == e),
{
}

/// What is written to a location is read back by the codec that wrote it:
/// a reader and a writer with the same explicit format name, or with none,
/// resolve the same location alike, to the same codec and, for delimited
/// text, the same delimiter, or both fail.
pub proof fn lemma_location_reads_as_written(
    reader: ArrowReaderBuilder,
    writer: ArrowWriterBuilder,
    location: Seq<char>,
    read: InnoFileResult<ArrowReaderPlan>,
    write: InnoFileResult<ArrowWriterPlan>,
)
    requires
        reader.file_format_text() == writer.file_format_text(),
        reader.resolves_to(location, read),
        writer.resolves_to(location, write),
    ensures
        read is Ok <==> write is Ok,
        read is Ok ==> read->Ok_0.codec() == write->Ok_0.codec(),
        read matches Ok(ArrowReaderPlan::Csv { delimiter: d, .. }) ==> (write matches Ok(
            ArrowWriterPlan::Csv { delimiter: e },
        ) && d == e),
        read matches Err(InnoFileError::FileFormatNotSupported(x)) ==> (write matches Err(
            InnoFileError::FileFormatNotSupported(y),
        ) && x@ == y@),
        read matches Err(InnoFileError::FileFormatNotFound) ==> write matches Err(
            InnoFileError::FileFormatNotFound,
        ),
{
}

} // verus!
