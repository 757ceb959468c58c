use sp1_air::sdk::{download_progress, LocalProverBuilder, LocalRequestOptions, Mode, ProofOpts};

#[test]
fn default_mode_is_groth16() {
    assert_eq!(Mode::default(), Mode::Groth16);
}

#[test]
fn local_prover_builder_starts_with_the_default_mode() {
    let builder = LocalProverBuilder::new();
    assert_eq!(builder.mode(), Mode::Groth16);
}

#[test]
fn request_options_start_with_the_defaults() {
    let options = LocalRequestOptions::new();
    assert_eq!(options.mode, Mode::Groth16);
    assert_eq!(options.timeout, 0);
    assert_eq!(
        options.proof_opts(),
        ProofOpts { timeout: 0, mode: Mode::Groth16, cycle_limit: 0 }
    );
}

#[test]
fn request_options_take_a_mode_and_a_timeout() {
    let options = LocalRequestOptions::new().with_mode(Mode::Compressed).with_timeout(30);
    assert_eq!(options.mode, Mode::Compressed);
    assert_eq!(options.timeout, 30);
    let options = options.with_timeout(60);
    assert_eq!(options.mode, Mode::Compressed);
    assert_eq!(options.timeout, 60);
    let options = options.with_mode(Mode::Plonk);
    assert_eq!(
        options.proof_opts(),
        ProofOpts { timeout: 60, mode: Mode::Plonk, cycle_limit: 0 }
    );
    for mode in [Mode::Execute, Mode::Core, Mode::Compressed, Mode::Plonk, Mode::Groth16] {
        assert_eq!(LocalRequestOptions::new().with_mode(mode).proof_opts().mode, mode);
    }
}

#[test]
fn a_download_never_counts_beyond_the_announced_size() {
    assert_eq!(download_progress(0, 10, 100), 10);
    assert_eq!(download_progress(90, 10, 100), 100);
    assert_eq!(download_progress(95, 10, 100), 100);
    assert_eq!(download_progress(100, 10, 100), 100);
    assert_eq!(download_progress(0, 0, 0), 0);
    assert_eq!(download_progress(5, 0, 100), 5);
    assert_eq!(download_progress(u64::MAX - 1, 16, u64::MAX), u64::MAX);
    assert_eq!(download_progress(200, 1, 100), 100);
}
