use dtm_server::processing::{
    check_merge_inputs, detect_predictor_option, gdal_translate_args, gdalwarp_args,
    is_float_raster_type, merge_stage_event, merge_tool_result, parse_band_data_type,
    raster_data_type_result, temp_output_path, ClipExtentText, CompressionType, MergeStage,
    MergeTool, ProcessingError,
};

#[test]
fn test_compression_types() {
    assert_eq!(CompressionType::Zstd.to_gdal_string(), "ZSTD");
    assert_eq!(CompressionType::Deflate.to_gdal_string(), "DEFLATE");
}

#[test]
fn test_compression_from_str_is_case_insensitive() {
    assert_eq!(CompressionType::from_str("ZSTD"), CompressionType::Zstd);
    assert_eq!(CompressionType::from_str("zstd"), CompressionType::Zstd);
    assert_eq!(CompressionType::from_str("Lzma"), CompressionType::Lzma);
    assert_eq!(CompressionType::from_str("lzw"), CompressionType::Lzw);
    assert_eq!(CompressionType::from_str("deflate"), CompressionType::Deflate);
    assert_eq!(CompressionType::from_str("anything"), CompressionType::Deflate);
    assert_eq!(CompressionType::from_str(""), CompressionType::Deflate);
}

#[test]
fn test_is_float_raster_type() {
    assert!(is_float_raster_type("Float32"));
    assert!(is_float_raster_type("Float64"));
    assert!(!is_float_raster_type("UInt16"));
}

#[test]
fn test_parse_band_data_type() {
    let json = r#"{"bands":[{"band":1,"type":"Float32"}]}"#;
    assert_eq!(parse_band_data_type(json), Some("Float32".to_string()));
}

#[test]
fn test_parse_band_data_type_missing() {
    let json = r#"{"bands":[]}"#;
    assert_eq!(parse_band_data_type(json), None);
}

#[test]
fn test_detect_predictor_option_floats_only() {
    assert_eq!(detect_predictor_option(Some("Float32")), Some(3));
    assert_eq!(detect_predictor_option(Some("CFloat64")), Some(3));
    assert_eq!(detect_predictor_option(Some("Int16")), None);
    assert_eq!(detect_predictor_option(None), None);
}

#[test]
fn test_raster_data_type_result_errors() {
    match raster_data_type_result(false, "boom", "") {
        Err(ProcessingError::GdalError(m)) => assert_eq!(m, "gdalinfo failed: boom"),
        other => panic!("unexpected: {:?}", other),
    }
    match raster_data_type_result(true, "", r#"{"bands":[]}"#) {
        Err(ProcessingError::GdalError(m)) => {
            assert_eq!(m, "gdalinfo output missing band data type")
        }
        other => panic!("unexpected: {:?}", other),
    }
    assert_eq!(
        raster_data_type_result(true, "", r#"{"bands":[{"type":"Float32"}]}"#),
        Ok("Float32".to_string())
    );
}

#[test]
fn test_temp_output_path_strips_extension() {
    assert_eq!(temp_output_path("/tmp/out.tif"), "/tmp/out.temp.tif");
    assert_eq!(temp_output_path("/tmp/out"), "/tmp/out.temp.tif");
    assert_eq!(temp_output_path("/tmp/out.tif.tif"), "/tmp/out.temp.tif");
}

#[test]
fn test_check_merge_inputs_empty_is_error() {
    assert_eq!(check_merge_inputs(&vec![]), Err(ProcessingError::NoInputFiles));
    assert_eq!(check_merge_inputs(&vec!["a.tif".to_string()]), Ok(()));
}

#[test]
fn test_gdalwarp_args_exact() {
    let clip = ClipExtentText {
        min_x: "1".to_string(),
        min_y: "2".to_string(),
        max_x: "3".to_string(),
        max_y: "4".to_string(),
    };
    let inputs = vec!["a.tif".to_string(), "b.tif".to_string()];
    let args = gdalwarp_args(CompressionType::Zstd, Some(3), Some(&clip), &inputs, "/t/x.temp.tif");
    let expected: Vec<String> = [
        "-of", "GTiff", "-co", "COMPRESS=ZSTD", "-co", "BIGTIFF=YES", "-co",
        "NUM_THREADS=ALL_CPUS", "-r", "near", "-co", "PREDICTOR=3", "-te", "1", "2", "3", "4",
        "-te_srs", "EPSG:3857", "a.tif", "b.tif", "/t/x.temp.tif",
    ]
    .iter()
    .map(|s| s.to_string())
    .collect();
    assert_eq!(args, expected);
}

#[test]
fn test_gdalwarp_args_without_options() {
    let inputs = vec!["a.tif".to_string()];
    let args = gdalwarp_args(CompressionType::Deflate, None, None, &inputs, "t.tif");
    let expected: Vec<String> = [
        "-of", "GTiff", "-co", "COMPRESS=DEFLATE", "-co", "BIGTIFF=YES", "-co",
        "NUM_THREADS=ALL_CPUS", "-r", "near", "a.tif", "t.tif",
    ]
    .iter()
    .map(|s| s.to_string())
    .collect();
    assert_eq!(args, expected);
}

#[test]
fn test_gdal_translate_args_exact() {
    let args = gdal_translate_args("t.temp.tif", "out.tif", CompressionType::Lzw, Some(3));
    let expected: Vec<String> = [
        "t.temp.tif", "out.tif", "-of", "COG", "-co", "COMPRESS=LZW", "-co", "PREDICTOR=3",
        "-co", "BIGTIFF=YES", "-co", "BLOCKSIZE=512", "-co", "NUM_THREADS=ALL_CPUS",
    ]
    .iter()
    .map(|s| s.to_string())
    .collect();
    assert_eq!(args, expected);
}

#[test]
fn test_merge_tool_result_messages() {
    assert_eq!(merge_tool_result(MergeTool::Warp, true, ""), Ok(()));
    match merge_tool_result(MergeTool::Warp, false, "bad extent") {
        Err(ProcessingError::GdalError(m)) => assert_eq!(m, "gdalwarp failed: bad extent"),
        other => panic!("unexpected: {:?}", other),
    }
    match merge_tool_result(MergeTool::Translate, false, "disk full") {
        Err(ProcessingError::GdalError(m)) => assert_eq!(m, "gdal_translate failed: disk full"),
        other => panic!("unexpected: {:?}", other),
    }
}

#[test]
fn test_merge_stage_events() {
    let s = merge_stage_event(MergeStage::Starting);
    assert_eq!((s.stage.as_str(), s.percentage, s.message.as_str()),
        ("merging", 0, "Starting merge process..."));
    let w = merge_stage_event(MergeStage::Warping);
    assert_eq!((w.stage.as_str(), w.percentage, w.message.as_str()),
        ("merging", 10, "Merging and clipping rasters..."));
    let t = merge_stage_event(MergeStage::Translating);
    assert_eq!((t.stage.as_str(), t.percentage, t.message.as_str()),
        ("creating_cog", 60, "Creating Cloud Optimized GeoTIFF..."));
    let d = merge_stage_event(MergeStage::Done);
    assert_eq!((d.stage.as_str(), d.percentage, d.message.as_str()),
        ("completed", 100, "Processing complete!"));
}

#[test]
fn test_processing_error_messages() {
    assert_eq!(
        ProcessingError::GdalNotFound("no gdalinfo".to_string()).describe(),
        "GDAL not found: no gdalinfo"
    );
    assert_eq!(
        ProcessingError::GdalError("x".to_string()).describe(),
        "GDAL operation failed: x"
    );
    assert_eq!(ProcessingError::NoInputFiles.describe(), "No input files provided");
    assert_eq!(ProcessingError::IoError("denied".to_string()).describe(), "IO error: denied");
}
