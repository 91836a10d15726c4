use vstd::prelude::*;

verus! {

#[verifier::external_type_specification]
#[verifier::external_body]
pub struct ExDocument(mongodb::bson::Document);

#[verifier::external_type_specification]
#[verifier::external_body]
pub struct ExBson(mongodb::bson::Bson);

#[verifier::external_type_specification]
#[verifier::external_body]
pub struct ExClient(mongodb::Client);

#[verifier::external_type_specification]
#[verifier::external_body]
pub struct ExDatabase(mongodb::Database);

#[verifier::external_type_specification]
#[verifier::external_body]
#[verifier::reject_recursive_types(T)]
pub struct ExCollection<T>(mongodb::Collection<T>);

#[verifier::external_type_specification]
#[verifier::external_body]
pub struct ExDriverError(mongodb::error::Error);

#[verifier::external_type_specification]
pub struct ExInsertOneResult(mongodb::results::InsertOneResult);

#[verifier::external_type_specification]
pub struct ExInsertManyResult(mongodb::results::InsertManyResult);

#[verifier::external_type_specification]
pub struct ExUpdateResult(mongodb::results::UpdateResult);

#[verifier::external_type_specification]
pub struct ExDeleteResult(mongodb::results::DeleteResult);

} // verus!
