use video_rs::resize::{calculate_fit_dims, calculate_fit_dims_even};

const TESTING_DIM_CANDIDATES: [u32; 8] = [0, 1, 2, 3, 8, 111, 256, 1000];

#[test]
fn calculate_fit_dims_works() {
    let testset = generate_testset();
    for ((w, h), (fit_w, fit_h)) in testset {
        let out = calculate_fit_dims((w, h), (fit_w, fit_h));
        if let Some((out_w, out_h)) = out {
            let input_dim_zero = w == 0 || h == 0 || fit_w == 0 || fit_h == 0;
            let output_dim_zero = out_w == 0 || out_h == 0;
            assert!(
                (input_dim_zero && output_dim_zero) || (!input_dim_zero && !output_dim_zero),
                "computed dims are never zero unless the inputs dims were",
            );
            assert!(
                (out_w <= fit_w) && (out_h <= fit_h),
                "computed dims fit inside provided dims",
            );
        }
    }
}

#[test]
fn calculate_fit_dims_even_works() {
    let testset = generate_testset();
    for ((w, h), (fit_w, fit_h)) in testset {
        let out = calculate_fit_dims_even((w, h), (fit_w, fit_h));
        if let Some((out_w, out_h)) = out {
            let input_dim_zero = w == 0 || h == 0 || fit_w == 0 || fit_h == 0;
            let output_dim_zero = out_w == 0 || out_h == 0;
            assert!(
                (input_dim_zero && output_dim_zero) || (!input_dim_zero && !output_dim_zero),
                "computed dims are never zero unless the inputs dims were",
            );
            assert!(
                (out_w % 2 == 0) && (out_h % 2 == 0),
                "computed dims are even",
            );
            assert!(
                (out_w <= fit_w) && (out_h <= fit_h),
                "computed dims fit inside provided dims",
            );
        }
    }
}

fn generate_testset() -> Vec<((u32, u32), (u32, u32))> {
    let testing_dims = generate_testing_dims();
    testing_dims
        .iter()
        .flat_map(|dims| testing_dims.iter().map(|fit_dims| (*dims, *fit_dims)))
        .collect()
}

fn generate_testing_dims() -> Vec<(u32, u32)> {
    TESTING_DIM_CANDIDATES
        .iter()
        .flat_map(|a| TESTING_DIM_CANDIDATES.iter().map(|b| (*a, *b)))
        .collect()
}
