//! The calls that a workload makes on its execution context.
//!
//! A call that goes to the backend does not send anything itself. It checks
//! its arguments against the context and hands back the [`Operation`] to
//! send. A call that is refused here has caused no traffic.

use super::context::Context;
use crate::error::{Error, ErrorKind};
use crate::operation::{Operation, Request};
use crate::retry::RetryView;
use crate::row_distribution::{
    described_preset, description_fault, init_preset, out_of_range_text, owns, partition_info,
    unknown_preset_text,
};
use crate::text::str_eq;
use crate::validation::{invalid_arguments_text, normalized, ValidationSpec};
use crate::value::{list_view, Value};
use vstd::prelude::*;
use vstd::string::StringSliceAdditionalSpecFns;

verus! {

/// A partition of a preset, as a workload sees it.
#[derive(Clone, Copy, Debug, PartialEq, Eq, Structural)]
pub struct Partition {
    /// The index of the partition.
    pub idx: u64,
    /// The number of rows of the partition.
    pub rows_num: u64,
}

/// The retry controller of an operation that the context starts.
pub open spec fn fresh_retry(ctx: Context) -> RetryView {
    RetryView { budget: ctx.retry_number as nat, retries: 0, interval: ctx.retry_interval }
}

/// The text of the error for a key under which no statement was prepared.
pub open spec fn statement_not_found_text(key: Seq<char>) -> Seq<char> {
    "No statement was prepared under the key "@ + key
}

/// The text of the error for a batch whose keys and values differ in
/// number.
pub open spec fn batch_mismatch_text() -> Seq<char> {
    "A batch needs as many values as it has keys"@
}

/// The position of the first of `keys` under which `statements` holds
/// nothing, or the number of keys if there is none.
pub open spec fn first_missing(statements: Map<Seq<char>, String>, keys: Seq<String>) -> int
    decreases keys.len(),
{
    if keys.len() == 0 {
        0
    } else if !statements.contains_key(keys[0]@) {
        0
    } else {
        1 + first_missing(statements, keys.skip(1))
    }
}

/// Whether `op` sends the statement `cql` as text.
pub open spec fn sends_query(op: Operation, cql: Seq<char>) -> bool {
    op.request matches Request::Query { cql: text } && text@ == cql
}

/// Whether `op` sends the statement prepared under `key` with the values
/// `params`.
pub open spec fn sends_prepared(op: Operation, key: Seq<char>, params: Value) -> bool {
    op.request matches Request::Prepared { key: k, params: p } && k@ == key && p == params
}

fn statement_not_found(key: &str) -> (e: Error)
    ensures
        e.0 is LookupError,
        e.0.text() == statement_not_found_text(key@),
{
    let mut text = String::from_str("No statement was prepared under the key ");
    text.append(key);
    Error(ErrorKind::LookupError(text))
}

/// Enters the statement `cql` under `key`, in place of what was prepared
/// under that key before. Nothing else changes.
pub fn prepare(ctx: &mut Context, key: &str, cql: &str)
    ensures
        final(ctx).statements@.contains_key(key@),
        final(ctx).statements@[key@]@ == cql@,
        final(ctx).statements@ == old(ctx).statements@.insert(key@, final(ctx).statements@[key@]),
        *final(ctx) == (Context { statements: final(ctx).statements, ..*old(ctx) }),
{
    ctx.statements.insert(key, String::from_str(cql));
}

/// Ends the current call with the workload's own message: always fails,
/// with a custom error that carries `message`.
pub fn signal_failure(_ctx: &Context, message: &str) -> (r: Result<(), Error>)
    ensures
        r matches Err(e) && e.0 is CustomError && e.0.text() == message@,
{
    Err(Error(ErrorKind::CustomError(String::from_str(message))))
}

/// The operation that sends the statement `cql`, without bounds on its
/// result.
pub fn execute(ctx: &Context, cql: &str) -> (op: Operation)
    ensures
        sends_query(op, cql@),
        op.validation is None,
        !op.with_result,
        op.retry@ == fresh_retry(*ctx),
        op.latency_nanos == 0,
{
    Operation::new(
        Request::Query { cql: String::from_str(cql) },
        None,
        false,
        ctx.retry_number,
        ctx.retry_interval,
    )
}

/// The operation that sends the statement `cql` and checks the number of
/// rows of the result against the bounds that `validation_args` state.
/// Fails with an argument error if the arguments have none of the accepted
/// shapes.
pub fn execute_with_validation(ctx: &Context, cql: &str, validation_args: &Vec<Value>) -> (r:
    Result<Operation, Error>)
    ensures
        match r {
            Ok(op) => {
                &&& sends_query(op, cql@)
                &&& op.validation is Some
                &&& normalized(list_view(validation_args@)) == Some(op.validation->0@)
                &&& !op.with_result
                &&& op.retry@ == fresh_retry(*ctx)
                &&& op.latency_nanos == 0
            },
            Err(e) => {
                &&& normalized(list_view(validation_args@)) is None
                &&& e.0 is ArgumentError
                &&& e.0.text() == invalid_arguments_text("execute_with_validation"@)
            },
        },
{
    let spec = ValidationSpec::normalize(validation_args, "execute_with_validation")?;
    Ok(
        Operation::new(
            Request::Query { cql: String::from_str(cql) },
            Some(spec),
            false,
            ctx.retry_number,
            ctx.retry_interval,
        ),
    )
}

/// The operation that sends the statement `cql` and hands back the rows of
/// its result.
pub fn execute_with_result(ctx: &Context, cql: &str) -> (op: Operation)
    ensures
        sends_query(op, cql@),
        op.validation is None,
        op.with_result,
        op.retry@ == fresh_retry(*ctx),
        op.latency_nanos == 0,
{
    Operation::new(
        Request::Query { cql: String::from_str(cql) },
        None,
        true,
        ctx.retry_number,
        ctx.retry_interval,
    )
}

/// The operation that sends the statement prepared under `key` with the
/// values `params`. Fails with a lookup error if nothing was prepared under
/// `key`.
pub fn execute_prepared(ctx: &Context, key: &str, params: Value) -> (r: Result<Operation, Error>)
    ensures
        match r {
            Ok(op) => {
                &&& ctx.statements@.contains_key(key@)
                &&& sends_prepared(op, key@, params)
                &&& op.validation is None
                &&& !op.with_result
                &&& op.retry@ == fresh_retry(*ctx)
                &&& op.latency_nanos == 0
            },
            Err(e) => {
                &&& !ctx.statements@.contains_key(key@)
                &&& e.0 is LookupError
                &&& e.0.text() == statement_not_found_text(key@)
            },
        },
{
    if !ctx.statements.contains(key) {
        return Err(statement_not_found(key));
    }
    Ok(
        Operation::new(
            Request::Prepared { key: String::from_str(key), params },
            None,
            false,
            ctx.retry_number,
            ctx.retry_interval,
        ),
    )
}

/// The operation that sends the statement prepared under `key` with the
/// values `params` and checks the number of rows of the result against the
/// bounds that `validation_args` state. Fails with an argument error if the
/// arguments have none of the accepted shapes, and otherwise with a lookup
/// error if nothing was prepared under `key`.
pub fn execute_prepared_with_validation(
    ctx: &Context,
    key: &str,
    params: Value,
    validation_args: &Vec<Value>,
) -> (r: Result<Operation, Error>)
    ensures
        match r {
            Ok(op) => {
                &&& ctx.statements@.contains_key(key@)
                &&& sends_prepared(op, key@, params)
                &&& op.validation is Some
                &&& normalized(list_view(validation_args@)) == Some(op.validation->0@)
                &&& !op.with_result
                &&& op.retry@ == fresh_retry(*ctx)
                &&& op.latency_nanos == 0
            },
            Err(e) => if normalized(list_view(validation_args@)) is None {
                e.0 is ArgumentError && e.0.text() == invalid_arguments_text(
                    "execute_prepared_with_validation"@,
                )
            } else {
                &&& !ctx.statements@.contains_key(key@)
                &&& e.0 is LookupError
                &&& e.0.text() == statement_not_found_text(key@)
            },
        },
{
    let spec = ValidationSpec::normalize(validation_args, "execute_prepared_with_validation")?;
    if !ctx.statements.contains(key) {
        return Err(statement_not_found(key));
    }
    Ok(
        Operation::new(
            Request::Prepared { key: String::from_str(key), params },
            Some(spec),
            false,
            ctx.retry_number,
            ctx.retry_interval,
        ),
    )
}

/// The operation that sends the statement prepared under `key` with the
/// values `params` and hands back the rows of its result. Fails with a
/// lookup error if nothing was prepared under `key`.
pub fn execute_prepared_with_result(ctx: &Context, key: &str, params: Value) -> (r: Result<
    Operation,
    Error,
>)
    ensures
        match r {
            Ok(op) => {
                &&& ctx.statements@.contains_key(key@)
                &&& sends_prepared(op, key@, params)
                &&& op.validation is None
                &&& op.with_result
                &&& op.retry@ == fresh_retry(*ctx)
                &&& op.latency_nanos == 0
            },
            Err(e) => {
                &&& !ctx.statements@.contains_key(key@)
                &&& e.0 is LookupError
                &&& e.0.text() == statement_not_found_text(key@)
            },
        },
{
    if !ctx.statements.contains(key) {
        return Err(statement_not_found(key));
    }
    Ok(
        Operation::new(
            Request::Prepared { key: String::from_str(key), params },
            None,
            true,
            ctx.retry_number,
            ctx.retry_interval,
        ),
    )
}

/// The one operation that sends the statements prepared under `keys`, each
/// with the values at its position in `params`, as a batch. The batch is
/// retried as a whole and counts as one operation. Fails with an argument
/// error if there are not as many values as keys, and otherwise with a
/// lookup error that names the first key under which nothing was prepared.
pub fn batch_prepared(ctx: &Context, keys: Vec<String>, params: Vec<Value>) -> (r: Result<
    Operation,
    Error,
>)
    ensures
        match r {
            Ok(op) => {
                &&& keys@.len() == params@.len()
                &&& first_missing(ctx.statements@, keys@) == keys@.len()
                &&& op.request == (Request::Batch { keys, params })
                &&& op.validation is None
                &&& !op.with_result
                &&& op.retry@ == fresh_retry(*ctx)
                &&& op.latency_nanos == 0
            },
            Err(e) => if keys@.len() != params@.len() {
                e.0 is ArgumentError && e.0.text() == batch_mismatch_text()
            } else {
                &&& first_missing(ctx.statements@, keys@) < keys@.len()
                &&& e.0 is LookupError
                &&& e.0.text() == statement_not_found_text(
                    keys@[first_missing(ctx.statements@, keys@)]@,
                )
            },
        },
{
    if keys.len() != params.len() {
        return Err(
            Error(
                ErrorKind::ArgumentError(
                    String::from_str("A batch needs as many values as it has keys"),
                ),
            ),
        );
    }
    let mut i: usize = 0;
    assert(keys@.skip(0) =~= keys@);
    while i < keys.len()
        invariant
            i <= keys@.len(),
            keys@.len() == params@.len(),
            first_missing(ctx.statements@, keys@) == i + first_missing(
                ctx.statements@,
                keys@.skip(i as int),
            ),
        decreases keys@.len() - i,
    {
        assert(keys@.skip(i as int)[0] == keys@[i as int]);
        assert(keys@.skip(i as int).skip(1) =~= keys@.skip(i + 1));
        if !ctx.statements.contains(keys[i].as_str()) {
            return Err(statement_not_found(keys[i].as_str()));
        }
        i += 1;
    }
    Ok(
        Operation::new(
            Request::Batch { keys, params },
            None,
            false,
            ctx.retry_number,
            ctx.retry_interval,
        ),
    )
}

/// Makes the preset that the values describe and enters it in the context
/// under `preset_name`, in place of a preset entered under that name before.
/// Fails with an argument error, and changes nothing, if the groups text is
/// no list of groups or the values describe no preset.
pub fn init_partition_row_distribution_preset(
    ctx: &mut Context,
    preset_name: &str,
    row_count: u64,
    rows_per_partitions_base: u64,
    rows_per_partitions_groups: &str,
) -> (r: Result<(), Error>)
    ensures
        *final(ctx) == (Context {
            partition_row_presets: final(ctx).partition_row_presets,
            ..*old(ctx)
        }),
        match r {
            Ok(_) => {
                &&& described_preset(
                    row_count,
                    rows_per_partitions_base,
                    rows_per_partitions_groups.spec_bytes(),
                ) is Some
                &&& final(ctx).partition_row_presets@.contains_key(preset_name@)
                &&& final(ctx).partition_row_presets@[preset_name@]@ == described_preset(
                    row_count,
                    rows_per_partitions_base,
                    rows_per_partitions_groups.spec_bytes(),
                )->0
                &&& final(ctx).partition_row_presets@ == old(ctx).partition_row_presets@.insert(
                    preset_name@,
                    final(ctx).partition_row_presets@[preset_name@],
                )
            },
            Err(e) => {
                &&& described_preset(
                    row_count,
                    rows_per_partitions_base,
                    rows_per_partitions_groups.spec_bytes(),
                ) is None
                &&& final(ctx).partition_row_presets@ == old(ctx).partition_row_presets@
                &&& e.0 is ArgumentError
                &&& e.0.text() == description_fault(
                    row_count,
                    rows_per_partitions_base,
                    rows_per_partitions_groups.spec_bytes(),
                )
            },
        },
{
    init_preset(
        &mut ctx.partition_row_presets,
        preset_name,
        row_count,
        rows_per_partitions_base,
        rows_per_partitions_groups,
    )
}

/// The partition of the preset `preset_name` that holds the row with the
/// ordinal `idx`. Fails with a lookup error if the context has no preset of
/// that name or the preset has no such row.
pub fn get_partition_info(ctx: &Context, preset_name: &str, idx: u64) -> (r: Result<
    Partition,
    Error,
>)
    ensures
        ctx.partition_row_presets@.contains_key(preset_name@)
            ==> ctx.partition_row_presets@[preset_name@]@.valid(),
        match r {
            Ok(partition) => {
                &&& ctx.partition_row_presets@.contains_key(preset_name@)
                &&& idx < ctx.partition_row_presets@[preset_name@]@.total_rows
                &&& owns(
                    ctx.partition_row_presets@[preset_name@]@.sizes(),
                    partition.idx as int,
                    idx as nat,
                )
                &&& partition.rows_num == ctx.partition_row_presets@[preset_name@]@.sizes()[partition.idx as int]
            },
            Err(e) => {
                &&& e.0 is LookupError
                &&& !ctx.partition_row_presets@.contains_key(preset_name@) ==> e.0.text()
                    == unknown_preset_text(preset_name@)
                &&& ctx.partition_row_presets@.contains_key(preset_name@) ==> idx
                    >= ctx.partition_row_presets@[preset_name@]@.total_rows && e.0.text()
                    == out_of_range_text(idx)
            },
        },
{
    let (idx, rows_num) = partition_info(&ctx.partition_row_presets, preset_name, idx)?;
    Ok(Partition { idx, rows_num })
}

/// The index of the partition of the preset `preset_name` that holds the
/// row with the ordinal `idx`. Fails as [`get_partition_info`] does.
pub fn get_partition_idx(ctx: &Context, preset_name: &str, idx: u64) -> (r: Result<u64, Error>)
    ensures
        ctx.partition_row_presets@.contains_key(preset_name@)
            ==> ctx.partition_row_presets@[preset_name@]@.valid(),
        match r {
            Ok(index) => {
                &&& ctx.partition_row_presets@.contains_key(preset_name@)
                &&& idx < ctx.partition_row_presets@[preset_name@]@.total_rows
                &&& owns(
                    ctx.partition_row_presets@[preset_name@]@.sizes(),
                    index as int,
                    idx as nat,
                )
            },
            Err(e) => {
                &&& e.0 is LookupError
                &&& !ctx.partition_row_presets@.contains_key(preset_name@) ==> e.0.text()
                    == unknown_preset_text(preset_name@)
                &&& ctx.partition_row_presets@.contains_key(preset_name@) ==> idx
                    >= ctx.partition_row_presets@[preset_name@]@.total_rows && e.0.text()
                    == out_of_range_text(idx)
            },
        },
{
    let (index, _rows_num) = partition_info(&ctx.partition_row_presets, preset_name, idx)?;
    Ok(index)
}

/// The names that `names` hold, in their order.
pub open spec fn names_of(names: Seq<String>) -> Seq<Seq<char>> {
    names.map_values(|name: String| name@)
}

/// The datacenters of a cluster whose nodes lie in the datacenters
/// `nodes`: every datacenter once, in the order in which the nodes first
/// name it. A node of an unknown datacenter names none.
pub open spec fn datacenters_of(nodes: Seq<Option<String>>) -> Seq<Seq<char>>
    decreases nodes.len(),
{
    if nodes.len() == 0 {
        Seq::empty()
    } else {
        let earlier = datacenters_of(nodes.drop_last());
        match nodes.last() {
            Some(name) => if earlier.contains(name@) {
                earlier
            } else {
                earlier.push(name@)
            },
            None => earlier,
        }
    }
}

/// The datacenters of the cluster, given the datacenter of each of its
/// nodes as the driver reports them.
pub fn get_datacenters(nodes: &Vec<Option<String>>) -> (datacenters: Vec<String>)
    ensures
        names_of(datacenters@) == datacenters_of(nodes@),
{
    let mut out: Vec<String> = Vec::new();
    let mut i: usize = 0;
    assert(nodes@.take(0) =~= Seq::<Option<String>>::empty());
    assert(names_of(out@) =~= Seq::<Seq<char>>::empty());
    while i < nodes.len()
        invariant
            i <= nodes@.len(),
            names_of(out@) == datacenters_of(nodes@.take(i as int)),
        decreases nodes@.len() - i,
    {
        assert(nodes@.take(i + 1).drop_last() =~= nodes@.take(i as int));
        if let Some(name) = &nodes[i] {
            let mut known = false;
            let mut k: usize = 0;
            while k < out.len() && !known
                invariant
                    k <= out@.len(),
                    known ==> names_of(out@).contains(name@),
                    !known ==> forall|j: int| 0 <= j < k ==> names_of(out@)[j] != name@,
                decreases out@.len() - k + if known { 0int } else { 1int },
            {
                if str_eq(out[k].as_str(), name.as_str()) {
                    assert(names_of(out@)[k as int] == name@);
                    known = true;
                } else {
                    k += 1;
                }
            }
            if !known {
                let ghost before = out@;
                out.push(name.clone());
                assert(names_of(out@) =~= names_of(before).push(name@));
            }
        }
        i += 1;
    }
    assert(nodes@.take(i as int) =~= nodes@);
    out
}

} // verus!
