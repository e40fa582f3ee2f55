use casper_client::error::CasperError;
use casper_client::planner::plan_upload;

fn bits(values: &[f32]) -> Vec<u32> {
    values.iter().map(|v| v.to_bits()).collect()
}

#[test]
fn zero_dimension_always_fails() {
    let err = plan_upload("m", 0, bits(&[1.0, 2.0]), 8).unwrap_err();
    assert_eq!(
        err,
        CasperError::InvalidUploadConfig("dimension must be greater than 0".to_string())
    );
    let err = plan_upload("m", 0, vec![], 0).unwrap_err();
    assert_eq!(
        err,
        CasperError::InvalidUploadConfig("dimension must be greater than 0".to_string())
    );
}

#[test]
fn misaligned_buffer_fails_with_both_numbers() {
    let err = plan_upload("m", 3, bits(&[0.0; 7]), 8).unwrap_err();
    assert_eq!(
        err,
        CasperError::InvalidUploadConfig(
            "vector buffer length 7 is not divisible by dimension 3".to_string()
        )
    );
}

#[test]
fn chunk_floats_clamped_up_to_dimension() {
    let plan = plan_upload("m", 3, bits(&[0.0; 6]), 1).unwrap();
    assert_eq!(plan.chunk_floats, 3);
    assert_eq!(plan.total_chunks, 2);
    let header = plan.header();
    assert_eq!(header.max_vectors_per_chunk, 1);
}

#[test]
fn chunks_cover_buffer_exactly() {
    // dimension 1, 5 values, stride 2: chunks of 2, 2 and 1 values.
    let values = bits(&[1.0, 2.0, 3.0, 4.0, 5.0]);
    let plan = plan_upload("m", 1, values.clone(), 2).unwrap();
    assert_eq!(plan.total_chunks, 3);
    let mut concatenated: Vec<u32> = Vec::new();
    for i in 0..plan.total_chunks {
        let chunk = plan.chunk(i);
        assert_eq!(chunk.chunk_index, i);
        concatenated.extend_from_slice(&chunk.values);
    }
    assert_eq!(concatenated, values);
    assert_eq!(plan.chunk(0).values.len(), 2);
    assert_eq!(plan.chunk(1).values.len(), 2);
    assert_eq!(plan.chunk(2).values.len(), 1);
}

#[test]
fn chunks_use_fixed_stride_not_vector_boundaries() {
    // dimension 2, 6 values, stride 3: a chunk may end mid-vector.
    let values = bits(&[1.0, 2.0, 3.0, 4.0, 5.0, 6.0]);
    let plan = plan_upload("m", 2, values.clone(), 3).unwrap();
    assert_eq!(plan.total_chunks, 2);
    assert_eq!(plan.chunk(0).values, values[0..3].to_vec());
    assert_eq!(plan.chunk(1).values, values[3..6].to_vec());
    assert_eq!(plan.header().max_vectors_per_chunk, 1);
}

#[test]
fn header_carries_plan_geometry() {
    let plan = plan_upload("embeddings", 4, bits(&[0.0; 16]), 8).unwrap();
    let header = plan.header();
    assert_eq!(header.name, "embeddings");
    assert_eq!(header.dimension, 4);
    assert_eq!(header.total_chunks, 2);
    assert_eq!(header.max_vectors_per_chunk, 2);
}

#[test]
fn empty_buffer_plans_no_chunks() {
    let plan = plan_upload("m", 3, vec![], 9).unwrap();
    assert_eq!(plan.total_chunks, 0);
    assert_eq!(plan.header().total_chunks, 0);
}
