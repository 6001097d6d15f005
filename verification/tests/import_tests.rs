use sc_core::import::EdgeMetadata;
use sc_core::import::EdgeMetadataExport;
use sc_core::import::EdgeMetadataFile;
use sc_core::import::ImportError;
use sc_core::import::Json;
use sc_core::import::K8Obj;
use sc_core::import::ObjectMeta;

#[test]
fn validates_json_config() {
    let config = r#"{
            "topics": [
              {
                "apiVersion": "fluvio.infinyon.com/v2",
                "kind": "Topic",
                "metadata": {
                  "name": "my-topic"
                },
                "spec": {
                  "replicas": {
                    "computed": {
                      "partitions": 1,
                      "replicationFactor": 1,
                      "ignoreRackAssignment": false
                    }
                  }
                }
              }
            ]
          }
          "#;

    let config = EdgeMetadataFile::from_json(config);

    assert!(config.is_ok());

    let config: EdgeMetadata = config.unwrap().into();

    assert!(config.topics.len() == 1);
}

#[test]
fn empty_object_imports_nothing() {
    let config: EdgeMetadata = EdgeMetadataFile::from_json("{}").unwrap().into();
    assert_eq!(config.topics.len(), 0);
    assert_eq!(config.upstream_clusters.len(), 0);
}

#[test]
fn one_topic_imports_with_matching_name() {
    let json = r#"{"topics": [{"apiVersion": "v1", "kind": "Topic",
                   "metadata": {"name": "events"}, "spec": {}}]}"#;
    let config: EdgeMetadata = EdgeMetadataFile::from_json(json).unwrap().into();
    assert_eq!(config.topics.len(), 1);
    assert_eq!(config.topics[0].metadata.name, "events");
    assert_eq!(config.topics[0].api_version, "v1");
    assert_eq!(config.topics[0].kind, "Topic");
    assert!(config.topics[0].status.is_none());
    assert_eq!(config.upstream_clusters.len(), 0);
}

#[test]
fn upstream_clusters_import_too() {
    let json = r#"{"upstreamClusters": [{"apiVersion": "v1", "kind": "UpstreamCluster",
                   "metadata": {"name": "edge-1"}, "spec": {"target": "core"}}]}"#;
    let config: EdgeMetadata = EdgeMetadataFile::from_json(json).unwrap().into();
    assert_eq!(config.topics.len(), 0);
    assert_eq!(config.upstream_clusters.len(), 1);
    assert_eq!(config.upstream_clusters[0].metadata.name, "edge-1");
}

#[test]
fn malformed_json_is_a_syntax_error() {
    assert_eq!(EdgeMetadataFile::from_json("{").unwrap_err(), ImportError::Syntax);
    assert_eq!(EdgeMetadataFile::from_json("").unwrap_err(), ImportError::Syntax);
}

#[test]
fn schema_violations_fail_the_whole_import() {
    // The document must be an object.
    assert_eq!(EdgeMetadataFile::from_json("[]").unwrap_err(), ImportError::Schema);
    // The topics binding must be an array.
    assert_eq!(
        EdgeMetadataFile::from_json(r#"{"topics": 3}"#).unwrap_err(),
        ImportError::Schema
    );
    // An element missing its metadata name fails the whole import.
    let json = r#"{"topics": [{"apiVersion": "v1", "kind": "Topic",
                   "metadata": {}, "spec": {}}]}"#;
    assert_eq!(EdgeMetadataFile::from_json(json).unwrap_err(), ImportError::Schema);
}

#[test]
fn validate_accepts_a_parsed_document() {
    let config: EdgeMetadata = EdgeMetadataFile::from_json("{}").unwrap().into();
    assert!(config.validate().is_ok());
}

#[test]
fn export_drops_the_status_and_keeps_the_order() {
    let topics = vec![
        K8Obj {
            api_version: "v1".to_string(),
            kind: "Topic".to_string(),
            metadata: ObjectMeta { name: "a".to_string() },
            spec: Json::Null,
            status: Some("Provisioned".to_string()),
        },
        K8Obj {
            api_version: "v1".to_string(),
            kind: "Topic".to_string(),
            metadata: ObjectMeta { name: "b".to_string() },
            spec: Json::Bool(true),
            status: None,
        },
    ];
    let export = EdgeMetadataExport::new(topics, Vec::new());
    assert_eq!(export.topics.len(), 2);
    assert_eq!(export.topics[0].metadata.name, "a");
    assert_eq!(export.topics[1].metadata.name, "b");
    assert!(export.upstream_clusters.is_empty());
}

#[test]
fn spec_payload_is_carried_through_opaquely() {
    let json = r#"{"topics": [{"apiVersion": "v1", "kind": "Topic",
                   "metadata": {"name": "t"},
                   "spec": {"replicas": {"computed": {"partitions": 2}}}}]}"#;
    let config: EdgeMetadata = EdgeMetadataFile::from_json(json).unwrap().into();
    assert!(matches!(config.topics[0].spec, Json::Obj(_)));
    match &config.topics[0].spec {
        Json::Obj(fields) => {
            assert_eq!(fields.len(), 1);
            assert_eq!(fields[0].0, "replicas");
        }
        other => panic!("spec payload lost its shape: {:?}", other),
    }
}
