use easy_apply::search::{assemble_search_url, build_search_url, query_pairs, SearchQuery};

fn sample_query() -> SearchQuery {
    SearchQuery {
        q: "rust developer".to_owned(),
        location: "New York, NY".to_owned(),
        country_code: "US".to_owned(),
        filters_employment_type: "FULLTIME".to_owned(),
        filters_employer_type: "Direct Hire".to_owned(),
        filters_easy_apply: true,
        language: "en".to_owned(),
    }
}

#[test]
fn search_url_is_fully_serialized() {
    let url = build_search_url(&sample_query());
    assert_eq!(
        url,
        "https://dice.com/jobs?q=rust+developer&location=New+York%2C+NY&countryCode=US\
         &filters.employmentType=FULLTIME&filters.employerType=Direct+Hire\
         &filters.easyApply=true&language=en"
    );
}

#[test]
fn easy_apply_flag_serializes_as_false_too() {
    let mut query = sample_query();
    query.filters_easy_apply = false;
    let url = build_search_url(&query);
    assert!(url.contains("filters.easyApply=false"));
}

#[test]
fn query_pairs_follow_field_order_and_names() {
    let pairs = query_pairs(&sample_query());
    let keys: Vec<&str> = pairs.iter().map(|p| p.0.as_str()).collect();
    assert_eq!(
        keys,
        vec![
            "q",
            "location",
            "countryCode",
            "filters.employmentType",
            "filters.employerType",
            "filters.easyApply",
            "language",
        ]
    );
    assert_eq!(pairs[5].1, "true");
}

#[test]
fn assemble_appends_to_fixed_endpoint() {
    assert_eq!(assemble_search_url("a=b"), "https://dice.com/jobs?a=b");
    assert_eq!(assemble_search_url(""), "https://dice.com/jobs?");
}

#[test]
fn percent_encoding_matches_the_form_rules() {
    let mut query = sample_query();
    query.q = "c* d-e.f_g/h&i=j\u{e9}".to_owned();
    let url = build_search_url(&query);
    assert!(url.contains("q=c*+d-e.f_g%2Fh%26i%3Dj%C3%A9"));
}

#[test]
fn describe_summarizes_the_query() {
    assert_eq!(
        sample_query().describe(),
        "q: rust developer, location: New York, NY, country_code: US, \
         filters_employer_type: Direct Hire, filters_easy_apply: true, language: en"
    );
}
