use jobtracker_core::Job;
use jobtracker_core::{JobSource, JobStatus, StatusColor};

#[test]
fn status_display_text() {
    assert_eq!(JobStatus::Applied.display_text(), "Applied");
    assert_eq!(JobStatus::Interview.display_text(), "Interview");
    assert_eq!(JobStatus::Offer.display_text(), "Offer");
    assert_eq!(JobStatus::Rejected.display_text(), "Rejected");
    assert_eq!(JobStatus::Ghosted.display_text(), "Ghosted");
}

#[test]
fn source_display_text() {
    assert_eq!(JobSource::LinkedIn.display_text(), "LinkedIn");
    assert_eq!(JobSource::Monster.display_text(), "Monster");
    assert_eq!(JobSource::Indeed.display_text(), "Indeed");
    assert_eq!(JobSource::Recruiter.display_text(), "Recruiter");
    assert_eq!(JobSource::NotProvided.display_text(), "Not provided");
    assert_eq!(JobSource::Talent.display_text(), "Talent.com");
    assert_eq!(JobSource::Glassdoor.display_text(), "Glassdoor");
    assert_eq!(JobSource::ZipRecruiter.display_text(), "ZipRecruiter");
}

#[test]
fn source_parses_known_channels_case_insensitively() {
    assert_eq!(JobSource::from_str("linkedin"), Ok(JobSource::LinkedIn));
    assert_eq!(JobSource::from_str("LinkedIn"), Ok(JobSource::LinkedIn));
    assert_eq!(JobSource::from_str("MONSTER"), Ok(JobSource::Monster));
    assert_eq!(JobSource::from_str("Indeed"), Ok(JobSource::Indeed));
    assert_eq!(JobSource::from_str("recruiter"), Ok(JobSource::Recruiter));
    assert_eq!(JobSource::from_str("Talent.com"), Ok(JobSource::Talent));
    assert_eq!(JobSource::from_str("GlassDoor"), Ok(JobSource::Glassdoor));
    assert_eq!(JobSource::from_str("ZipRecruiter"), Ok(JobSource::ZipRecruiter));
}

#[test]
fn unrecognized_source_normalizes_to_not_provided() {
    assert_eq!(JobSource::from_str("word of mouth"), Ok(JobSource::NotProvided));
    assert_eq!(JobSource::from_str(""), Ok(JobSource::NotProvided));
    assert_eq!(JobSource::from_str("talent"), Ok(JobSource::NotProvided));
    assert_eq!(JobSource::default(), JobSource::NotProvided);
}

#[test]
fn status_colors_are_a_fixed_lookup() {
    fn job_with(status: JobStatus) -> Job {
        Job {
            id: 1,
            company: "Acme".to_string(),
            role: "Engineer".to_string(),
            role_location: None,
            status,
            timestamp: 0,
            source: None,
        }
    }
    let navy = StatusColor { red: 65, green: 105, blue: 225 };
    assert_eq!(job_with(JobStatus::Applied).get_status_color_mapping(), navy);
    assert_eq!(
        job_with(JobStatus::Interview).get_status_color_mapping(),
        StatusColor { red: 0, green: 255, blue: 255 }
    );
    assert_eq!(
        job_with(JobStatus::Offer).get_status_color_mapping(),
        StatusColor { red: 0, green: 255, blue: 0 }
    );
    assert_eq!(
        job_with(JobStatus::Rejected).get_status_color_mapping(),
        StatusColor { red: 255, green: 0, blue: 0 }
    );
    assert_eq!(
        job_with(JobStatus::Ghosted).get_status_color_mapping(),
        StatusColor { red: 128, green: 128, blue: 128 }
    );
}

#[test]
fn cloned_records_keep_every_field() {
    let original = Job {
        id: 9,
        company: "Acme".to_string(),
        role: "Engineer".to_string(),
        role_location: Some("Remote".to_string()),
        status: JobStatus::Offer,
        timestamp: 123456,
        source: Some(JobSource::Recruiter),
    };
    let copy = original.clone();
    assert_eq!(copy.id, original.id);
    assert_eq!(copy.company, original.company);
    assert_eq!(copy.role, original.role);
    assert_eq!(copy.role_location, original.role_location);
    assert_eq!(copy.status, original.status);
    assert_eq!(copy.timestamp, original.timestamp);
    assert_eq!(copy.source, original.source);
}
