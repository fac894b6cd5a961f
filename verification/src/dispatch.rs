//! Orchestrates an extraction job and a batch of jobs: classify the file
//! name, resolve a collision-free destination, select the extractor for
//! the format tag, and report one outcome per input. Jobs in a batch are
//! processed in order and independently: a failure in one never affects
//! another.

use vstd::prelude::*;
use crate::FormatTag;
use crate::classify::{classify, spec_classify, get_full_extension, spec_full_extension};
use crate::destination::{dest_base_name, spec_dest_base, get_unique_path, resolved_name};
use crate::entries::{FsEntry, ExtractError};
use crate::lha_extractor::{extract_lha, extract_lzh, lha_items, lha_all_read,
    lha_entries_decoded};
use crate::entries::safe_rel_path;
use crate::lha_extractor::lha_names_safe;
use crate::stream_extractor::{extract_gz, extract_xz, extract_bz2, gzip_decoded, xz_decoded,
    bzip2_decoded, single_stream_entry, spec_stream_output_name};
use crate::tar_extractor::{extract_tar, extract_tar_gz, extract_tar_xz, extract_tar_bz2,
    tar_parse, tar_entries_decoded, tar_names_safe};
use crate::zip_extractor::{extract_zip, zip_parse, zip_entries_decoded, zip_all_readable,
    zip_names_safe};

verus! {

/// One extraction job's input: the source file's name, the names already
/// present in the directory the destination will be created in, and the
/// archive's bytes (`None` when the source file could not be read).
pub struct JobInput {
    pub file_name: String,
    pub existing: Vec<String>,
    pub data: Option<Vec<u8>>,
}

/// A successful extraction: the resolved destination directory name and
/// the entries to materialize beneath it.
pub struct Extraction {
    pub dest_name: String,
    pub entries: Vec<FsEntry>,
}

/// The reported outcome of one job: its source name, and its result.
pub struct JobOutcome {
    pub source: String,
    pub outcome: Result<Extraction, ExtractError>,
}

/// True when `es` is a correct extraction of `b` under format `tag`, for a
/// source named `name`: each recognized container format's entries, decoded
/// as that extractor promises, or the single renamed stream for the raw
/// compression formats.
pub open spec fn extract_ok_matches(
    tag: FormatTag,
    name: Seq<char>,
    b: Seq<u8>,
    es: Seq<FsEntry>,
) -> bool {
    match tag {
        FormatTag::Zip => zip_parse(b) is Some && zip_all_readable(zip_parse(b)->0)
            && zip_names_safe(zip_parse(b)->0) && zip_entries_decoded(es, zip_parse(b)->0),
        FormatTag::SevenZ => false,
        FormatTag::Rar => false,
        FormatTag::Tar => tar_parse(b) is Some && tar_names_safe(tar_parse(b)->0)
            && tar_entries_decoded(es, tar_parse(b)->0),
        FormatTag::TarGz => gzip_decoded(b) is Some && tar_parse(gzip_decoded(b)->0) is Some
            && tar_names_safe(tar_parse(gzip_decoded(b)->0)->0) && tar_entries_decoded(
            es,
            tar_parse(gzip_decoded(b)->0)->0,
        ),
        FormatTag::TarXz => xz_decoded(b) is Some && tar_parse(xz_decoded(b)->0) is Some
            && tar_names_safe(tar_parse(xz_decoded(b)->0)->0) && tar_entries_decoded(
            es,
            tar_parse(xz_decoded(b)->0)->0,
        ),
        FormatTag::TarBz2 => bzip2_decoded(b) is Some && tar_parse(bzip2_decoded(b)->0) is Some
            && tar_names_safe(tar_parse(bzip2_decoded(b)->0)->0) && tar_entries_decoded(
            es,
            tar_parse(bzip2_decoded(b)->0)->0,
        ),
        FormatTag::Gzip => gzip_decoded(b) is Some && safe_rel_path(spec_stream_output_name(name))
            && single_stream_entry(es, name, gzip_decoded(b)->0),
        FormatTag::Xz => xz_decoded(b) is Some && safe_rel_path(spec_stream_output_name(name))
            && single_stream_entry(es, name, xz_decoded(b)->0),
        FormatTag::Bzip2 => bzip2_decoded(b) is Some && safe_rel_path(
            spec_stream_output_name(name),
        ) && single_stream_entry(es, name, bzip2_decoded(b)->0),
        FormatTag::Lha => lha_items(b, 0).len() > 0 && lha_all_read(lha_items(b, 0))
            && lha_names_safe(lha_items(b, 0)) && lha_entries_decoded(es, lha_items(b, 0)),
        FormatTag::Lzh => lha_items(b, 0).len() > 0 && lha_all_read(lha_items(b, 0))
            && lha_names_safe(lha_items(b, 0)) && lha_entries_decoded(es, lha_items(b, 0)),
        FormatTag::Unknown => false,
    }
}

/// Law: a correct extraction never hands out a path that could escape the
/// destination — every entry of it is a safe relative path, whatever the
/// format.
pub proof fn lemma_extraction_paths_contained(
    tag: FormatTag,
    name: Seq<char>,
    b: Seq<u8>,
    es: Seq<FsEntry>,
)
    requires
        extract_ok_matches(tag, name, b, es),
    ensures
        forall|i: int| 0 <= i < es.len() ==> safe_rel_path((#[trigger] es[i]).path@),
{
}

/// True when success is owed for format `tag` on bytes `b` under source
/// name `name`: extraction here is a pure function of the bytes, so it
/// succeeds exactly when the parses succeed, every ZIP entry is readable,
/// and every produced name stays inside the destination. (RAR and 7z are
/// decoded outside the library, so success is never owed for them here.)
pub open spec fn extract_must_succeed(tag: FormatTag, name: Seq<char>, b: Seq<u8>) -> bool {
    match tag {
        FormatTag::Zip => zip_parse(b) is Some && zip_all_readable(zip_parse(b)->0)
            && zip_names_safe(zip_parse(b)->0),
        FormatTag::SevenZ => false,
        FormatTag::Rar => false,
        FormatTag::Tar => tar_parse(b) is Some && tar_names_safe(tar_parse(b)->0),
        FormatTag::TarGz => gzip_decoded(b) is Some && tar_parse(gzip_decoded(b)->0) is Some
            && tar_names_safe(tar_parse(gzip_decoded(b)->0)->0),
        FormatTag::TarXz => xz_decoded(b) is Some && tar_parse(xz_decoded(b)->0) is Some
            && tar_names_safe(tar_parse(xz_decoded(b)->0)->0),
        FormatTag::TarBz2 => bzip2_decoded(b) is Some && tar_parse(bzip2_decoded(b)->0) is Some
            && tar_names_safe(tar_parse(bzip2_decoded(b)->0)->0),
        FormatTag::Gzip => gzip_decoded(b) is Some && safe_rel_path(spec_stream_output_name(name)),
        FormatTag::Xz => xz_decoded(b) is Some && safe_rel_path(spec_stream_output_name(name)),
        FormatTag::Bzip2 => bzip2_decoded(b) is Some && safe_rel_path(
            spec_stream_output_name(name),
        ),
        FormatTag::Lha => lha_items(b, 0).len() > 0 && lha_all_read(lha_items(b, 0))
            && lha_names_safe(lha_items(b, 0)),
        FormatTag::Lzh => lha_items(b, 0).len() > 0 && lha_all_read(lha_items(b, 0))
            && lha_names_safe(lha_items(b, 0)),
        FormatTag::Unknown => false,
    }
}

/// Selects and runs the extractor for `file_name`'s format on the archive
/// bytes. An unrecognized extension is a reported, per-file error carrying
/// the extension text; the two recognized formats whose decoders cannot be
/// driven from inside the library (RAR reads the file itself; the 7z
/// decoder can panic inside its parse) are reported as external.
pub fn extract_archive(file_name: &str, data: Vec<u8>) -> (r: Result<Vec<FsEntry>, ExtractError>)
    ensures
        r is Ok ==> extract_ok_matches(spec_classify(file_name@), file_name@, data@, r->Ok_0@),
        r is Ok <==> extract_must_succeed(spec_classify(file_name@), file_name@, data@),
        spec_classify(file_name@) == FormatTag::Unknown <==> r is Err && r->Err_0 is Unsupported,
        r is Err && r->Err_0 is Unsupported ==> r->Err_0->Unsupported_0@ == spec_full_extension(
            file_name@,
        ),
        (spec_classify(file_name@) == FormatTag::Rar || spec_classify(file_name@)
            == FormatTag::SevenZ) <==> r is Err && r->Err_0 is External,
        r is Err ==> r->Err_0 is Format || r->Err_0 is Read || r->Err_0 is Unsupported
            || r->Err_0 is External || r->Err_0 is UnsafeName,
{
    match classify(file_name) {
        FormatTag::Zip => extract_zip(data),
        FormatTag::SevenZ => Err(ExtractError::External),
        FormatTag::Rar => Err(ExtractError::External),
        FormatTag::Tar => extract_tar(data.as_slice()),
        FormatTag::TarGz => extract_tar_gz(data.as_slice()),
        FormatTag::TarXz => extract_tar_xz(data.as_slice()),
        FormatTag::TarBz2 => extract_tar_bz2(data.as_slice()),
        FormatTag::Gzip => extract_gz(file_name, data.as_slice()),
        FormatTag::Xz => extract_xz(file_name, data.as_slice()),
        FormatTag::Bzip2 => extract_bz2(file_name, data.as_slice()),
        FormatTag::Lha => extract_lha(data.as_slice()),
        FormatTag::Lzh => extract_lzh(data.as_slice()),
        FormatTag::Unknown => Err(ExtractError::Unsupported(get_full_extension(file_name))),
    }
}

/// A job input whose existing-name list the resolver can scan.
pub open spec fn job_well_formed(job: JobInput) -> bool {
    job.existing@.len() < u64::MAX - 2
}

/// The full relation between one job's input and its outcome: a missing
/// source is reported as not found; a name with no stem cannot name a
/// destination; otherwise the destination is the collision-free resolved
/// name and the entries are the selected extractor's result.
pub open spec fn spec_job(job: JobInput, r: Result<Extraction, ExtractError>) -> bool {
    &&& (job.data is None <==> r is Err && r->Err_0 is NotFound)
    &&& (job.data is Some && spec_dest_base(job.file_name@) is None <==> r is Err
        && r->Err_0 is NoName)
    &&& (r is Ok ==> {
        &&& job.data is Some
        &&& spec_dest_base(job.file_name@) is Some
        &&& resolved_name(
            spec_dest_base(job.file_name@)->0,
            job.existing@,
            r->Ok_0.dest_name@,
        )
        &&& extract_ok_matches(
            spec_classify(job.file_name@),
            job.file_name@,
            job.data->0@,
            r->Ok_0.entries@,
        )
    })
    &&& (r is Ok <==> job.data is Some && spec_dest_base(job.file_name@) is Some
        && extract_must_succeed(
        spec_classify(job.file_name@),
        job.file_name@,
        job.data->0@,
    ))
    &&& (job.data is Some && spec_dest_base(job.file_name@) is Some ==> {
        &&& (spec_classify(job.file_name@) == FormatTag::Unknown <==> r is Err
            && r->Err_0 is Unsupported)
        &&& ((spec_classify(job.file_name@) == FormatTag::Rar || spec_classify(job.file_name@)
            == FormatTag::SevenZ) <==> r is Err && r->Err_0 is External)
    })
}

/// Runs one extraction job: resolve the destination against the names in
/// use, classify, extract. Performs no filesystem work; the caller
/// materializes the returned entries.
pub fn run_job(job: JobInput) -> (r: JobOutcome)
    requires
        job_well_formed(job),
    ensures
        r.source == job.file_name,
        spec_job(job, r.outcome),
{
    let JobInput { file_name, existing, data } = job;
    let source = file_name.clone();
    let data = match data {
        Some(d) => d,
        None => {
            return JobOutcome { source, outcome: Err(ExtractError::NotFound) };
        },
    };
    let base = match dest_base_name(file_name.as_str()) {
        Some(b) => b,
        None => {
            return JobOutcome { source, outcome: Err(ExtractError::NoName) };
        },
    };
    let dest_name = get_unique_path(base.as_str(), &existing);
    match extract_archive(file_name.as_str(), data) {
        Ok(entries) => JobOutcome { source, outcome: Ok(Extraction { dest_name, entries }) },
        Err(e) => JobOutcome { source, outcome: Err(e) },
    }
}

/// Runs a batch of jobs sequentially, one outcome per input, in order.
/// Each outcome is determined by its own job's input alone, so a corrupt
/// or missing input never disturbs the jobs around it.
pub fn run_batch(jobs: Vec<JobInput>) -> (r: Vec<JobOutcome>)
    requires
        forall|i: int| 0 <= i < jobs@.len() ==> job_well_formed(#[trigger] jobs@[i]),
    ensures
        r@.len() == jobs@.len(),
        forall|i: int|
            0 <= i < jobs@.len() ==> (#[trigger] r@[i]).source == jobs@[i].file_name && spec_job(
                jobs@[i],
                r@[i].outcome,
            ),
{
    let mut out: Vec<JobOutcome> = Vec::new();
    let mut rest = jobs;
    let ghost all = rest@;
    proof {
        assert(rest@ =~= all.subrange(0, all.len() as int));
    }
    // Walk the inputs front to back, moving each into its job.
    while rest.len() > 0
        invariant
            out@.len() + rest@.len() == all.len(),
            rest@ == all.subrange(out@.len() as int, all.len() as int),
            forall|k: int| 0 <= k < all.len() ==> job_well_formed(#[trigger] all[k]),
            forall|k: int|
                0 <= k < out@.len() ==> (#[trigger] out@[k]).source == all[k].file_name
                    && spec_job(all[k], out@[k].outcome),
        decreases rest@.len(),
    {
        let job = rest.remove(0);
        proof {
            assert(job == all[out@.len() as int]);
        }
        let outcome = run_job(job);
        out.push(outcome);
        proof {
            assert(rest@ =~= all.subrange(out@.len() as int, all.len() as int));
        }
    }
    out
}

/// How a whole run went: every job succeeded (an empty run counts as all
/// succeeded), some but not all, or every job failed.
#[derive(Clone, Copy, Debug, PartialEq, Eq, Structural)]
pub enum BatchStatus {
    AllSucceeded,
    PartiallySucceeded,
    AllFailed,
}

/// True when every outcome of the run is a success.
pub open spec fn all_jobs_succeeded(o: Seq<JobOutcome>) -> bool {
    forall|i: int| 0 <= i < o.len() ==> (#[trigger] o[i]).outcome is Ok
}

/// True when at least one outcome of the run is a success.
pub open spec fn some_job_succeeded(o: Seq<JobOutcome>) -> bool {
    exists|i: int| 0 <= i < o.len() && (#[trigger] o[i]).outcome is Ok
}

/// The overall status a run's outcomes add up to.
pub open spec fn spec_batch_status(o: Seq<JobOutcome>) -> BatchStatus {
    if all_jobs_succeeded(o) {
        BatchStatus::AllSucceeded
    } else if some_job_succeeded(o) {
        BatchStatus::PartiallySucceeded
    } else {
        BatchStatus::AllFailed
    }
}

/// Adds a run's outcomes up into the overall status the process reports:
/// all succeeded, partially succeeded, or all failed.
pub fn batch_status(outcomes: &Vec<JobOutcome>) -> (r: BatchStatus)
    ensures
        r == spec_batch_status(outcomes@),
{
    let mut all_ok = true;
    let mut any_ok = false;
    let mut i: usize = 0;
    while i < outcomes.len()
        invariant
            i <= outcomes@.len(),
            all_ok == (forall|j: int| 0 <= j < i ==> (#[trigger] outcomes@[j]).outcome is Ok),
            any_ok == (exists|j: int| 0 <= j < i && (#[trigger] outcomes@[j]).outcome is Ok),
        decreases outcomes@.len() - i,
    {
        if outcomes[i].outcome.is_ok() {
            any_ok = true;
            proof {
                assert(outcomes@[i as int].outcome is Ok);
            }
        } else {
            all_ok = false;
        }
        i = i + 1;
    }
    if all_ok {
        BatchStatus::AllSucceeded
    } else if any_ok {
        BatchStatus::PartiallySucceeded
    } else {
        BatchStatus::AllFailed
    }
}

} // verus!
