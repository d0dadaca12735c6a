//! The merge stage's decisions: the compression mode, the exact argument
//! lists handed to the external raster toolchain, the reading of its band
//! metadata, and the mapping of its outcomes to errors.
//!
//! The toolchain itself runs outside this library: the caller launches the
//! processes and hands back their exit status and output text.

use vstd::prelude::*;
use crate::api_types::ProcessingProgressEvent;
use crate::strutil::{push_str, chars_vec, chars_to_string, u64_to_dec, spec_dec, str_eq};

verus! {

/// Errors of the merge stage.
#[derive(Debug, Clone, PartialEq)]
pub enum ProcessingError {
    /// The raster toolchain could not be found; the launcher's message.
    GdalNotFound(String),
    /// A toolchain invocation failed; its diagnostic output.
    GdalError(String),
    /// The job reached the merge with no input files.
    NoInputFiles,
    /// A local filesystem operation failed; the OS message.
    IoError(String),
}

impl ProcessingError {
    /// The human-readable message attached to a job's Error event.
    pub fn describe(&self) -> (r: String)
        ensures
            r@ == match self {
                ProcessingError::GdalNotFound(m) => "GDAL not found: "@ + m@,
                ProcessingError::GdalError(m) => "GDAL operation failed: "@ + m@,
                ProcessingError::NoInputFiles => "No input files provided"@,
                ProcessingError::IoError(m) => "IO error: "@ + m@,
            },
    {
        match self {
            ProcessingError::GdalNotFound(m) => {
                let mut s: String = "GDAL not found: ".to_owned();
                push_str(&mut s, m.as_str());
                s
            },
            ProcessingError::GdalError(m) => {
                let mut s: String = "GDAL operation failed: ".to_owned();
                push_str(&mut s, m.as_str());
                s
            },
            ProcessingError::NoInputFiles => "No input files provided".to_owned(),
            ProcessingError::IoError(m) => {
                let mut s: String = "IO error: ".to_owned();
                push_str(&mut s, m.as_str());
                s
            },
        }
    }
}

/// The compression mode of the output raster.
#[derive(Debug, Clone, Copy, PartialEq, Eq, Structural)]
pub enum CompressionType {
    Zstd,
    Lzma,
    Deflate,
    Lzw,
}

/// The code point of a character with ASCII upper case folded to lower case.
pub open spec fn spec_lower_u32(c: char) -> u32 {
    if 'A' <= c && c <= 'Z' {
        (c as u32 + 32) as u32
    } else {
        c as u32
    }
}

/// The string equals the keyword up to ASCII case.
pub open spec fn spec_matches_ci(s: Seq<char>, kw: Seq<char>) -> bool {
    s.len() == kw.len() && forall|i: int|
        0 <= i < s.len() ==> spec_lower_u32(#[trigger] s[i]) == kw[i] as u32
}

fn lower_eq(c: char, l: char) -> (r: bool)
    ensures
        r == (spec_lower_u32(c) == l as u32),
{
    if 'A' <= c && c <= 'Z' {
        (c as u32) + 32 == (l as u32)
    } else {
        (c as u32) == (l as u32)
    }
}

fn matches_ci(cs: &Vec<char>, kw: &Vec<char>) -> (r: bool)
    ensures
        r == spec_matches_ci(cs@, kw@),
{
    if cs.len() != kw.len() {
        return false;
    }
    let mut i: usize = 0;
    while i < cs.len()
        invariant
            i <= cs@.len(),
            cs@.len() == kw@.len(),
            forall|j: int| 0 <= j < i ==> spec_lower_u32(#[trigger] cs@[j]) == kw@[j] as u32,
        decreases cs@.len() - i,
    {
        if !lower_eq(cs[i], kw[i]) {
            proof {
                assert(spec_lower_u32(cs@[i as int]) != kw@[i as int] as u32);
            }
            return false;
        }
        i = i + 1;
    }
    true
}

/// The compression selected by a request string, compared ASCII-case-
/// insensitively; anything unrecognized falls back to the lossless baseline.
pub open spec fn spec_compression_from(s: Seq<char>) -> CompressionType {
    if spec_matches_ci(s, "zstd"@) {
        CompressionType::Zstd
    } else if spec_matches_ci(s, "lzma"@) {
        CompressionType::Lzma
    } else if spec_matches_ci(s, "lzw"@) {
        CompressionType::Lzw
    } else {
        CompressionType::Deflate
    }
}

/// The name the raster toolchain knows the compression by.
pub open spec fn spec_gdal_name(c: CompressionType) -> Seq<char> {
    match c {
        CompressionType::Zstd => "ZSTD"@,
        CompressionType::Lzma => "LZMA"@,
        CompressionType::Deflate => "DEFLATE"@,
        CompressionType::Lzw => "LZW"@,
    }
}

impl CompressionType {
    /// Reads a compression selector, defaulting to DEFLATE for anything
    /// unrecognized.
    pub fn from_str(s: &str) -> (r: Self)
        ensures
            r == spec_compression_from(s@),
    {
        let cs = chars_vec(s);
        let zstd = chars_vec("zstd");
        let lzma = chars_vec("lzma");
        let lzw = chars_vec("lzw");
        if matches_ci(&cs, &zstd) {
            CompressionType::Zstd
        } else if matches_ci(&cs, &lzma) {
            CompressionType::Lzma
        } else if matches_ci(&cs, &lzw) {
            CompressionType::Lzw
        } else {
            CompressionType::Deflate
        }
    }

    /// The toolchain's name for this compression.
    pub fn to_gdal_string(&self) -> (r: &'static str)
        ensures
            r@ == spec_gdal_name(*self),
    {
        match self {
            CompressionType::Zstd => "ZSTD",
            CompressionType::Lzma => "LZMA",
            CompressionType::Deflate => "DEFLATE",
            CompressionType::Lzw => "LZW",
        }
    }
}

/// A raster band type for which the toolchain gets a floating-point
/// predictor.
pub open spec fn spec_is_float_raster(s: Seq<char>) -> bool {
    ||| s == "Float32"@
    ||| s == "Float64"@
    ||| s == "CFloat32"@
    ||| s == "CFloat64"@
}

/// Whether a band data type is a floating-point type.
pub fn is_float_raster_type(data_type: &str) -> (r: bool)
    ensures
        r == spec_is_float_raster(data_type@),
{
    str_eq(data_type, "Float32") || str_eq(data_type, "Float64") || str_eq(data_type, "CFloat32")
        || str_eq(data_type, "CFloat64")
}

/// The predictor option the merge passes for a band data type: 3 for
/// floating-point rasters, none otherwise or when the type is unknown.
pub fn detect_predictor_option(band_type: Option<&str>) -> (r: Option<u8>)
    ensures
        r == match band_type {
            Some(t) => if spec_is_float_raster(t@) {
                Some(3u8)
            } else {
                None::<u8>
            },
            None => None::<u8>,
        },
{
    match band_type {
        Some(t) => if is_float_raster_type(t) {
            Some(3)
        } else {
            None
        },
        None => None,
    }
}

/// What the first band's "type" field of a raster-info JSON document holds:
/// a pure function of the document text.
pub uninterp spec fn band_type_of(doc: Seq<char>) -> Option<Seq<char>>;

/// Relies on serde_json: parses the raster-info JSON document and reads the
/// first band's "type" string. The result depends on the text alone.
#[verifier::external_body]
pub fn parse_band_data_type(gdalinfo_json: &str) -> (r: Option<String>)
    ensures
        match r {
            Some(s) => band_type_of(gdalinfo_json@) == Some(s@),
            None => band_type_of(gdalinfo_json@) is None,
        },
{
    let value: serde_json::Value = serde_json::from_str(gdalinfo_json).ok()?;
    Some(value.get("bands")?.as_array()?.first()?.get("type")?.as_str()?.to_string())
}

/// The band data type read from a raster-info run: the tool's failure text
/// when it failed, a distinct error when its report lacks a band type.
pub fn raster_data_type_result(success: bool, stderr: &str, stdout: &str) -> (r: Result<
    String,
    ProcessingError,
>)
    ensures
        match r {
            Ok(t) => success && band_type_of(stdout@) == Some(t@),
            Err(e) => match e {
                ProcessingError::GdalError(m) => !success && m@ == "gdalinfo failed: "@ + stderr@
                    || success && band_type_of(stdout@) is None && m@
                    == "gdalinfo output missing band data type"@,
                _ => false,
            },
        },
{
    if !success {
        let mut m: String = "gdalinfo failed: ".to_owned();
        push_str(&mut m, stderr);
        return Err(ProcessingError::GdalError(m));
    }
    match parse_band_data_type(stdout) {
        Some(t) => Ok(t),
        None => Err(
            ProcessingError::GdalError("gdalinfo output missing band data type".to_owned()),
        ),
    }
}

/// The merge may only start with at least one input raster.
pub fn check_merge_inputs(input_files: &Vec<String>) -> (r: Result<(), ProcessingError>)
    ensures
        (r is Ok) <==> input_files@.len() > 0,
        (r is Err) ==> r == Result::<(), ProcessingError>::Err(ProcessingError::NoInputFiles),
{
    if input_files.is_empty() {
        Err(ProcessingError::NoInputFiles)
    } else {
        Ok(())
    }
}

/// The path with every trailing raster extension removed, as the repeated
/// suffix trim does.
pub open spec fn spec_trim_tif(s: Seq<char>) -> Seq<char>
    decreases s.len(),
{
    if s.len() >= 4 && s.skip(s.len() - 4) == ".tif"@ {
        spec_trim_tif(s.take(s.len() - 4))
    } else {
        s
    }
}

/// The path the merged raster is first written to, beside the final output.
pub fn temp_output_path(output_path: &str) -> (r: String)
    ensures
        r@ == spec_trim_tif(output_path@) + ".temp.tif"@,
{
    proof {
        reveal_strlit(".tif");
    }
    let mut cs = chars_vec(output_path);
    loop
        invariant
            spec_trim_tif(output_path@) == spec_trim_tif(cs@),
        ensures
            spec_trim_tif(output_path@) == cs@,
        decreases cs@.len(),
    {
        let l = cs.len();
        if l >= 4 && cs[l - 4] == '.' && cs[l - 3] == 't' && cs[l - 2] == 'i' && cs[l - 1] == 'f' {
            proof {
                reveal_strlit(".tif");
                assert(cs@.skip(l - 4) =~= ".tif"@);
            }
            let ghost prev = cs@;
            cs.truncate(l - 4);
            proof {
                assert(cs@ == prev.take(l - 4));
                assert(spec_trim_tif(prev) == spec_trim_tif(cs@));
            }
        } else {
            proof {
                reveal_strlit(".tif");
                if l >= 4 {
                    let suf = cs@.skip(l - 4);
                    assert(suf.len() == 4);
                    if suf == ".tif"@ {
                        assert(suf[0] == '.' && suf[1] == 't' && suf[2] == 'i' && suf[3] == 'f');
                        assert(cs@[l - 4] == '.' && cs@[l - 3] == 't' && cs@[l - 2] == 'i' && cs@[l
                            - 1] == 'f');
                    }
                }
                assert(spec_trim_tif(cs@) == cs@);
            }
            break;
        }
    }
    let mut out = chars_to_string(&cs);
    push_str(&mut out, ".temp.tif");
    out
}

/// The rectangle the merge clips to, with its coordinates already rendered
/// to text by the caller (they are display values this module only passes
/// through).
#[derive(Debug, Clone, PartialEq)]
pub struct ClipExtentText {
    pub min_x: String,
    pub min_y: String,
    pub max_x: String,
    pub max_y: String,
}

/// The creation option that selects the compression.
pub open spec fn spec_compress_opt(c: CompressionType) -> Seq<char> {
    "COMPRESS="@ + spec_gdal_name(c)
}

/// The creation option that selects a predictor.
pub open spec fn spec_predictor_opt(p: u8) -> Seq<char> {
    "PREDICTOR="@ + spec_dec(p as int)
}

fn compress_opt(compression: CompressionType) -> (r: String)
    ensures
        r@ == spec_compress_opt(compression),
{
    let mut s: String = "COMPRESS=".to_owned();
    push_str(&mut s, compression.to_gdal_string());
    s
}

fn predictor_opt(p: u8) -> (r: String)
    ensures
        r@ == spec_predictor_opt(p),
{
    let mut s: String = "PREDICTOR=".to_owned();
    let d = u64_to_dec(p as u64);
    push_str(&mut s, d.as_str());
    s
}

/// The argument list of the warp invocation that merges and clips the
/// inputs into the temporary raster.
pub open spec fn spec_warp_args(
    compression: CompressionType,
    predictor: Option<u8>,
    clip: Option<ClipExtentText>,
    inputs: Seq<Seq<char>>,
    temp_path: Seq<char>,
) -> Seq<Seq<char>> {
    seq![
        "-of"@,
        "GTiff"@,
        "-co"@,
        spec_compress_opt(compression),
        "-co"@,
        "BIGTIFF=YES"@,
        "-co"@,
        "NUM_THREADS=ALL_CPUS"@,
        "-r"@,
        "near"@,
    ] + (match predictor {
        Some(p) => seq!["-co"@, spec_predictor_opt(p)],
        None => Seq::empty(),
    }) + (match clip {
        Some(c) => seq![
            "-te"@,
            c.min_x@,
            c.min_y@,
            c.max_x@,
            c.max_y@,
            "-te_srs"@,
            "EPSG:3857"@,
        ],
        None => Seq::empty(),
    }) + inputs + seq![temp_path]
}

/// Builds the warp invocation's arguments.
pub fn gdalwarp_args(
    compression: CompressionType,
    predictor: Option<u8>,
    clip: Option<&ClipExtentText>,
    input_files: &Vec<String>,
    temp_path: &str,
) -> (r: Vec<String>)
    ensures
        r.deep_view() == spec_warp_args(
            compression,
            predictor,
            match clip {
                Some(c) => Some(*c),
                None => None,
            },
            input_files.deep_view(),
            temp_path@,
        ),
{
    let ghost spec_clip: Option<ClipExtentText> = match clip {
        Some(c) => Some(*c),
        None => None,
    };
    let ghost target: Seq<Seq<char>> = spec_warp_args(
        compression,
        predictor,
        spec_clip,
        input_files.deep_view(),
        temp_path@,
    );
    let mut args: Vec<String> = Vec::new();
    args.push("-of".to_owned());
    args.push("GTiff".to_owned());
    args.push("-co".to_owned());
    args.push(compress_opt(compression));
    args.push("-co".to_owned());
    args.push("BIGTIFF=YES".to_owned());
    args.push("-co".to_owned());
    args.push("NUM_THREADS=ALL_CPUS".to_owned());
    args.push("-r".to_owned());
    args.push("near".to_owned());
    match predictor {
        Some(p) => {
            args.push("-co".to_owned());
            args.push(predictor_opt(p));
        },
        None => {},
    }
    match clip {
        Some(c) => {
            args.push("-te".to_owned());
            args.push(c.min_x.clone());
            args.push(c.min_y.clone());
            args.push(c.max_x.clone());
            args.push(c.max_y.clone());
            args.push("-te_srs".to_owned());
            args.push("EPSG:3857".to_owned());
        },
        None => {},
    }
    let ghost k = args.deep_view().len() as int;
    proof {
        assert(args.deep_view() =~~= target.take(k));
    }
    let mut i: usize = 0;
    while i < input_files.len()
        invariant
            i <= input_files@.len(),
            args@.len() == k + i,
            args.deep_view() == target.take(k + i),
            target == spec_warp_args(
                compression,
                predictor,
                spec_clip,
                input_files.deep_view(),
                temp_path@,
            ),
            k + input_files@.len() + 1 == target.len(),
            forall|j: int|
                0 <= j < input_files@.len() ==> target[k + j] == (#[trigger] input_files@[j])@,
        decreases input_files@.len() - i,
    {
        let ghost prev = args.deep_view();
        args.push(input_files[i].clone());
        proof {
            assert(args@.len() == k + i + 1);
            assert(args@[k + i] == input_files@[i as int]);
            assert forall|j: int| 0 <= j < k + i implies args.deep_view()[j] == prev[j] by {
                assert(args@[j] == args@[j]);
            }
            assert(args.deep_view()[k + i] == input_files@[i as int]@);
            assert(target.take(k + i + 1)[k + i] == target[k + i]);
            assert(args.deep_view() =~~= target.take(k + i + 1));
        }
        i = i + 1;
    }
    let ghost prev = args.deep_view();
    args.push(temp_path.to_owned());
    proof {
        assert forall|j: int| 0 <= j < target.len() - 1 implies args.deep_view()[j] == prev[j] by {
            assert(args@[j] == args@[j]);
        }
        assert(args@.len() == target.len());
        assert(args.deep_view().len() == target.len());
        assert forall|j: int| 0 <= j < target.len() implies args.deep_view()[j] == target[j] by {
            assert(args.deep_view()[j] == args@[j]@);
            if j < target.len() - 1 {
                assert(args.deep_view()[j] == prev[j]);
            } else {
                assert(args@[j]@ == temp_path@);
            }
        }
        assert(args.deep_view() =~~= target);
    }
    args
}

/// The argument list of the translate invocation that turns the temporary
/// raster into the final cloud-optimized output.
pub open spec fn spec_translate_args(
    temp_path: Seq<char>,
    output_path: Seq<char>,
    compression: CompressionType,
    predictor: Option<u8>,
) -> Seq<Seq<char>> {
    seq![temp_path, output_path, "-of"@, "COG"@, "-co"@, spec_compress_opt(compression)] + (
    match predictor {
        Some(p) => seq!["-co"@, spec_predictor_opt(p)],
        None => Seq::empty(),
    }) + seq![
        "-co"@,
        "BIGTIFF=YES"@,
        "-co"@,
        "BLOCKSIZE=512"@,
        "-co"@,
        "NUM_THREADS=ALL_CPUS"@,
    ]
}

/// Builds the translate invocation's arguments.
pub fn gdal_translate_args(
    temp_path: &str,
    output_path: &str,
    compression: CompressionType,
    predictor: Option<u8>,
) -> (r: Vec<String>)
    ensures
        r.deep_view() == spec_translate_args(temp_path@, output_path@, compression, predictor),
{
    let mut args: Vec<String> = Vec::new();
    args.push(temp_path.to_owned());
    args.push(output_path.to_owned());
    args.push("-of".to_owned());
    args.push("COG".to_owned());
    args.push("-co".to_owned());
    args.push(compress_opt(compression));
    match predictor {
        Some(p) => {
            args.push("-co".to_owned());
            args.push(predictor_opt(p));
        },
        None => {},
    }
    args.push("-co".to_owned());
    args.push("BIGTIFF=YES".to_owned());
    args.push("-co".to_owned());
    args.push("BLOCKSIZE=512".to_owned());
    args.push("-co".to_owned());
    args.push("NUM_THREADS=ALL_CPUS".to_owned());
    proof {
        assert(args.deep_view() =~~= spec_translate_args(
            temp_path@,
            output_path@,
            compression,
            predictor,
        ));
    }
    args
}

/// The two toolchain invocations of the merge.
#[derive(Debug, Clone, Copy, PartialEq, Eq, Structural)]
pub enum MergeTool {
    Warp,
    Translate,
}

/// Maps a toolchain invocation's outcome to the merge's result: success
/// passes, failure carries the tool's name and its diagnostic output.
pub fn merge_tool_result(tool: MergeTool, success: bool, stderr: &str) -> (r: Result<
    (),
    ProcessingError,
>)
    ensures
        (r is Ok) <==> success,
        match r {
            Ok(u) => true,
            Err(e) => match e {
                ProcessingError::GdalError(m) => m@ == (match tool {
                    MergeTool::Warp => "gdalwarp failed: "@,
                    MergeTool::Translate => "gdal_translate failed: "@,
                }) + stderr@,
                _ => false,
            },
        },
{
    if success {
        Ok(())
    } else {
        let mut m: String = match tool {
            MergeTool::Warp => "gdalwarp failed: ".to_owned(),
            MergeTool::Translate => "gdal_translate failed: ".to_owned(),
        };
        push_str(&mut m, stderr);
        Err(ProcessingError::GdalError(m))
    }
}

/// The named points the merge reports progress at.
#[derive(Debug, Clone, Copy, PartialEq, Eq, Structural)]
pub enum MergeStage {
    /// The merge is about to begin.
    Starting,
    /// The inputs are being merged and clipped.
    Warping,
    /// The final cloud-optimized output is being written.
    Translating,
    /// Everything is done.
    Done,
}

/// The progress event for a merge stage, with its fixed percentage and
/// message.
pub fn merge_stage_event(stage: MergeStage) -> (r: ProcessingProgressEvent)
    ensures
        match stage {
            MergeStage::Starting => r.stage@ == "merging"@ && r.percentage == 0 && r.message@
                == "Starting merge process..."@,
            MergeStage::Warping => r.stage@ == "merging"@ && r.percentage == 10 && r.message@
                == "Merging and clipping rasters..."@,
            MergeStage::Translating => r.stage@ == "creating_cog"@ && r.percentage == 60
                && r.message@ == "Creating Cloud Optimized GeoTIFF..."@,
            MergeStage::Done => r.stage@ == "completed"@ && r.percentage == 100 && r.message@
                == "Processing complete!"@,
        },
{
    match stage {
        MergeStage::Starting => ProcessingProgressEvent {
            stage: "merging".to_owned(),
            percentage: 0,
            message: "Starting merge process...".to_owned(),
        },
        MergeStage::Warping => ProcessingProgressEvent {
            stage: "merging".to_owned(),
            percentage: 10,
            message: "Merging and clipping rasters...".to_owned(),
        },
        MergeStage::Translating => ProcessingProgressEvent {
            stage: "creating_cog".to_owned(),
            percentage: 60,
            message: "Creating Cloud Optimized GeoTIFF...".to_owned(),
        },
        MergeStage::Done => ProcessingProgressEvent {
            stage: "completed".to_owned(),
            percentage: 100,
            message: "Processing complete!".to_owned(),
        },
    }
}

} // verus!
