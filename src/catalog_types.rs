//! Catalog payloads that the state carries without looking inside them.
use vstd::prelude::*;

verus! {

#[verifier::external_type_specification]
#[verifier::external_body]
pub struct ExTable(iceberg::table::Table);

#[verifier::external_type_specification]
#[verifier::external_body]
pub struct ExSnapshot(iceberg::spec::Snapshot);

#[verifier::external_type_specification]
#[verifier::external_body]
pub struct ExManifestList(iceberg::spec::ManifestList);

#[verifier::external_type_specification]
#[verifier::external_body]
pub struct ExManifest(iceberg::spec::Manifest);

#[verifier::external_type_specification]
#[verifier::external_body]
pub struct ExDataFile(iceberg::spec::DataFile);

#[verifier::external_type_specification]
#[verifier::external_body]
pub struct ExParquetMetaData(parquet::file::metadata::ParquetMetaData);

} // verus!
