use wallpaper_refresh::pipeline::{pipeline_step, Phase, PipelineEvent, RefreshError};

#[test]
fn a_refresh_runs_its_stages_in_order() {
    let mut phase = Phase::Fetching;
    phase = pipeline_step(phase, PipelineEvent::BodyAccepted);
    assert_eq!(phase, Phase::Saving);
    phase = pipeline_step(phase, PipelineEvent::Saved);
    assert_eq!(phase, Phase::Converting);
    phase = pipeline_step(phase, PipelineEvent::Converted);
    assert_eq!(phase, Phase::Applying);
    phase = pipeline_step(phase, PipelineEvent::Applied);
    assert_eq!(phase, Phase::Cleaning);
    phase = pipeline_step(phase, PipelineEvent::Cleaned);
    assert_eq!(phase, Phase::Done);
}

#[test]
fn an_exhausted_download_walk_is_terminal() {
    let phase = pipeline_step(Phase::Fetching, PipelineEvent::SourcesExhausted);
    assert_eq!(phase, Phase::Failed(RefreshError::NoValidImage));
}

#[test]
fn a_failed_disk_write_is_terminal() {
    let phase = pipeline_step(Phase::Saving, PipelineEvent::SaveFailed);
    assert_eq!(phase, Phase::Failed(RefreshError::SaveFailed));
}

#[test]
fn a_failed_conversion_is_terminal() {
    let phase = pipeline_step(Phase::Converting, PipelineEvent::ConvertFailed);
    assert_eq!(phase, Phase::Failed(RefreshError::ConvertFailed));
}
