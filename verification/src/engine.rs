//! The validation driver around the external schema/validator pair.
//!
//! The `jtd` crate supplies the schema model, its structural check and the
//! type-checking walk; `serde_json` supplies the JSON data model.  Both are
//! reached only through the trusted items below.  Each external call is
//! deterministic -- a function of its arguments alone -- so its outcome is
//! given a name (`parsed_schema_doc`, `converted_schema`, `schema_check_ok`,
//! `validator_findings`, ...), the trusted contracts pin each result to its
//! name, and the verified driver's own contracts are stated over the names:
//! when ingestion owes a schema, when validation is fatal, and exactly which
//! lines and verdict an instance's findings produce.

use vstd::prelude::*;
use crate::options::ValidationOptions;
use crate::outcome::Fatal;
use crate::report::InstanceReport;
use crate::report::PathError;
use crate::report::lemma_report_lines_from_pairs;
use crate::report::pair_lines;
use crate::report::path_pairs;
use crate::report::report_instance;

verus! {

#[verifier::external_type_specification]
#[verifier::external_body]
pub struct ExSchema(jtd::Schema);

#[verifier::external_type_specification]
#[verifier::external_body]
pub struct ExSerdeSchema(jtd::SerdeSchema);

#[verifier::external_type_specification]
#[verifier::external_body]
pub struct ExFromSerdeSchemaError(jtd::FromSerdeSchemaError);

#[verifier::external_type_specification]
#[verifier::external_body]
pub struct ExSchemaValidateError(jtd::SchemaValidateError);

#[verifier::external_type_specification]
#[verifier::external_body]
pub struct ExValidateError(jtd::ValidateError);

#[verifier::external_type_specification]
#[verifier::external_body]
pub struct ExValue(serde_json::Value);

#[verifier::external_type_specification]
#[verifier::external_body]
pub struct ExJsonError(serde_json::Error);

/// A schema that passed the structural-validity check.  The only way to
/// obtain one is [`ingest_schema`], so the validator is never handed a
/// schema whose refs could dangle.  Immutable after construction; it lives
/// for the whole run.
#[derive(Debug)]
pub struct CheckedSchema {
    schema: jtd::Schema,
}

impl CheckedSchema {
    /// The underlying schema model this value wraps.
    pub closed spec fn model(self) -> jtd::Schema {
        self.schema
    }
}

/// Whether the given bytes are exactly one well-formed JSON document of the
/// schema-description shape; a function of the bytes alone.
pub uninterp spec fn schema_json_ok(bytes: Seq<u8>) -> bool;

/// The schema description that the given bytes deserialize into, when they
/// do; a function of the bytes alone.
pub uninterp spec fn parsed_schema_doc(bytes: Seq<u8>) -> jtd::SerdeSchema;

/// Whether the given schema description converts into the schema model,
/// with no illegal combination or spelling of schema-form keywords; a
/// function of the description alone.
pub uninterp spec fn schema_convert_ok(sd: jtd::SerdeSchema) -> bool;

/// The schema model that the given description converts into, when it
/// does; a function of the description alone.
pub uninterp spec fn converted_schema(sd: jtd::SerdeSchema) -> jtd::Schema;

/// Whether the given schema model passes the structural-validity check;
/// a function of the model alone.
pub uninterp spec fn schema_check_ok(s: jtd::Schema) -> bool;

/// Whether the validator's walk of the schema against the instance, under
/// the given limits, gives up by reaching the engine's internal depth bound
/// while following refs; a function of the four arguments alone.
pub uninterp spec fn validator_depth_exceeded(
    s: jtd::Schema,
    v: serde_json::Value,
    max_depth: usize,
    max_errors: usize,
) -> bool;

/// The error indicators the validator's walk finds -- each an instance
/// path and a schema path, in the validator's order -- under the given
/// limits; a function of the four arguments alone.
pub uninterp spec fn validator_findings(
    s: jtd::Schema,
    v: serde_json::Value,
    max_depth: usize,
    max_errors: usize,
) -> Seq<(Seq<Seq<char>>, Seq<Seq<char>>)>;

/// Relies on `serde_json::from_slice`: deserializes exactly one JSON
/// document from the bytes into the raw schema description, succeeding or
/// failing, and with the same parsed value, on the bytes alone.
#[verifier::external_body]
fn parse_serde_schema(bytes: &[u8]) -> (r: Result<jtd::SerdeSchema, serde_json::Error>)
    ensures
        r is Ok <==> schema_json_ok(bytes@),
        r matches Ok(sd) ==> sd == parsed_schema_doc(bytes@),
{
    serde_json::from_slice(bytes)
}

/// Relies on `jtd::Schema::from_serde_schema`: converts the raw schema
/// description into the schema model, rejecting an illegal combination or
/// spelling of schema-form keywords; deterministic in the description.
#[verifier::external_body]
fn schema_from_serde(sd: jtd::SerdeSchema) -> (r: Result<
    jtd::Schema,
    jtd::FromSerdeSchemaError,
>)
    ensures
        r is Ok <==> schema_convert_ok(sd),
        r matches Ok(s) ==> s == converted_schema(sd),
{
    jtd::Schema::from_serde_schema(sd)
}

/// Relies on `jtd::Schema::validate`: checks the structural validity of the
/// schema model (every ref names a definition, definitions stand only at
/// the root, no empty enum, and so on); deterministic in the model.
#[verifier::external_body]
fn check_schema(schema: &jtd::Schema) -> (r: Result<(), jtd::SchemaValidateError>)
    ensures
        r is Ok <==> schema_check_ok(*schema),
{
    schema.validate()
}

/// Relies on the `Display` impl of `serde_json::Error`: renders the
/// parse diagnostic (position and cause) as text.
#[verifier::external_body]
fn json_error_detail(e: &serde_json::Error) -> String {
    e.to_string()
}

/// Relies on the `Display` impl of `jtd::FromSerdeSchemaError`: renders
/// the conversion diagnostic as text.
#[verifier::external_body]
fn convert_error_detail(e: &jtd::FromSerdeSchemaError) -> String {
    e.to_string()
}

/// Relies on the `Display` impl of `jtd::SchemaValidateError`: renders
/// the structural diagnostic as text.
#[verifier::external_body]
fn check_error_detail(e: &jtd::SchemaValidateError) -> String {
    e.to_string()
}

/// Relies on the `Display` impl of `jtd::ValidateError`: renders the
/// validator's fatal diagnostic as text.
#[verifier::external_body]
fn validate_error_detail(e: &jtd::ValidateError) -> String {
    e.to_string()
}

/// Relies on `jtd::validate`: walks the schema against the instance and
/// either returns the error indicators it finds -- at most `max_errors` of
/// them when that limit is nonzero -- or gives up with the depth-exceeded
/// outcome named above.  Both the outcome and the indicators are functions
/// of the arguments alone (the engine iterates over ordered maps only).
/// Every ref of a [`CheckedSchema`] names a definition, so the validator's
/// definition lookups cannot panic.  With `max_depth` of zero no depth
/// bound is enforced, so a cyclic schema may then exhaust the stack, as
/// the validator's own documentation warns.
#[verifier::external_body]
fn run_validator(
    schema: &CheckedSchema,
    instance: &serde_json::Value,
    max_depth: usize,
    max_errors: usize,
) -> (r: Result<Vec<PathError>, jtd::ValidateError>)
    ensures
        r is Ok <==> !validator_depth_exceeded(schema.model(), *instance, max_depth, max_errors),
        r matches Ok(errs) ==> path_pairs(errs@) == validator_findings(
            schema.model(),
            *instance,
            max_depth,
            max_errors,
        ),
        r matches Ok(errs) ==> (max_errors > 0 ==> errs@.len() <= max_errors as nat),
        max_depth == 0 ==> r is Ok,
{
    let options = jtd::ValidateOptions::new().with_max_depth(max_depth).with_max_errors(
        max_errors,
    );
    match jtd::validate(&schema.schema, instance, options) {
        Ok(errs) => Ok(
            errs.into_iter().map(|e| {
                let (instance_path, schema_path) = e.into_owned_paths();
                PathError { instance_path, schema_path }
            }).collect(),
        ),
        Err(e) => Err(e),
    }
}

/// A fatal condition together with the external collaborator's own
/// diagnostic for it.
#[derive(Debug)]
pub struct FatalDiagnostic {
    pub kind: Fatal,
    pub detail: String,
}

/// Ingest a schema from one JSON document: deserialize it, build the schema
/// model, and run the structural check.  Must complete before any instance
/// is read.  A schema is owed exactly when all three stages succeed; each
/// stage's failure maps onto its own fatal kind, carrying the external
/// diagnostic.
pub fn ingest_schema(bytes: &[u8]) -> (r: Result<CheckedSchema, FatalDiagnostic>)
    ensures
        r is Ok <==> (schema_json_ok(bytes@) && schema_convert_ok(parsed_schema_doc(bytes@))
            && schema_check_ok(converted_schema(parsed_schema_doc(bytes@)))),
        r matches Ok(cs) ==> cs.model() == converted_schema(parsed_schema_doc(bytes@)),
        r matches Ok(cs) ==> schema_check_ok(cs.model()),
        r matches Err(f) ==> (f.kind == Fatal::SchemaJson <==> !schema_json_ok(bytes@)),
        r matches Err(f) ==> (f.kind == Fatal::SchemaMalformed <==> (schema_json_ok(bytes@)
            && !schema_convert_ok(parsed_schema_doc(bytes@)))),
        r matches Err(f) ==> (f.kind == Fatal::SchemaInvalid <==> (schema_json_ok(bytes@)
            && schema_convert_ok(parsed_schema_doc(bytes@)) && !schema_check_ok(
            converted_schema(parsed_schema_doc(bytes@)),
        ))),
{
    let sd = match parse_serde_schema(bytes) {
        Ok(sd) => sd,
        Err(e) => {
            let detail = json_error_detail(&e);
            return Err(FatalDiagnostic { kind: Fatal::SchemaJson, detail });
        },
    };
    let schema = match schema_from_serde(sd) {
        Ok(s) => s,
        Err(e) => {
            let detail = convert_error_detail(&e);
            return Err(FatalDiagnostic { kind: Fatal::SchemaMalformed, detail });
        },
    };
    match check_schema(&schema) {
        Ok(_) => Ok(CheckedSchema { schema }),
        Err(e) => {
            let detail = check_error_detail(&e);
            Err(FatalDiagnostic { kind: Fatal::SchemaInvalid, detail })
        },
    }
}

/// Run the validator on one instance under the resolved limits.  The
/// result relays the validator's findings exactly; the only fatal outcome
/// is the validator's depth-exceeded one, and a nonzero `max_errors`
/// truncates the collected errors without failing.
pub fn validate_instance(
    schema: &CheckedSchema,
    instance: &serde_json::Value,
    opts: &ValidationOptions,
) -> (r: Result<Vec<PathError>, FatalDiagnostic>)
    ensures
        r is Ok <==> !validator_depth_exceeded(
            schema.model(),
            *instance,
            opts.max_depth,
            opts.max_errors,
        ),
        r matches Ok(errs) ==> path_pairs(errs@) == validator_findings(
            schema.model(),
            *instance,
            opts.max_depth,
            opts.max_errors,
        ),
        r matches Ok(errs) ==> (opts.max_errors > 0 ==> errs@.len()
            <= opts.max_errors as nat),
        r matches Err(f) ==> f.kind == Fatal::MaxDepthExceeded,
        opts.max_depth == 0 ==> r is Ok,
{
    match run_validator(schema, instance, opts.max_depth, opts.max_errors) {
        Ok(errs) => Ok(errs),
        Err(e) => {
            let detail = validate_error_detail(&e);
            Err(FatalDiagnostic { kind: Fatal::MaxDepthExceeded, detail })
        },
    }
}

/// Validate one instance and turn its errors into the instance's report.
/// The report is a function of the validator's findings and the quiet
/// flag: the verdict is "failed" exactly when the findings are nonempty --
/// quiet or not -- and the lines are exactly the rendered indicators of
/// the findings, suppressed under quiet.
pub fn handle_instance(
    schema: &CheckedSchema,
    instance: &serde_json::Value,
    opts: &ValidationOptions,
) -> (r: Result<InstanceReport, FatalDiagnostic>)
    ensures
        r is Ok <==> !validator_depth_exceeded(
            schema.model(),
            *instance,
            opts.max_depth,
            opts.max_errors,
        ),
        r matches Err(f) ==> f.kind == Fatal::MaxDepthExceeded,
        opts.max_depth == 0 ==> r is Ok,
        r matches Ok(rep) ==> {
            &&& (rep.failed <==> validator_findings(
                schema.model(),
                *instance,
                opts.max_depth,
                opts.max_errors,
            ).len() > 0)
            &&& rep.lines@.map_values(|s: String| s@) == pair_lines(
                validator_findings(
                    schema.model(),
                    *instance,
                    opts.max_depth,
                    opts.max_errors,
                ),
                opts.quiet,
            )
            &&& (opts.quiet ==> rep.lines@.len() == 0)
            &&& (!opts.quiet && opts.max_errors > 0 ==> rep.lines@.len()
                <= opts.max_errors as nat)
        },
{
    let errs = match validate_instance(schema, instance, opts) {
        Ok(e) => e,
        Err(f) => {
            return Err(f);
        },
    };
    proof {
        lemma_report_lines_from_pairs(errs@, opts.quiet);
        assert(path_pairs(errs@).len() == errs@.len());
    }
    let rep = report_instance(errs, opts.quiet);
    proof {
        assert(rep.lines@.map_values(|s: String| s@).len() == rep.lines@.len());
    }
    Ok(rep)
}

} // verus!
