[package]
name = "aws_lib"
version = "0.1.0"
edition = "2021"
publish = false

[dependencies]
aws-config = "=1.12.0"
aws-sdk-dynamodb = "=1.130.0"
aws-sdk-ecs = "=1.150.0"
aws-sdk-lambda = "=1.149.0"
aws-smithy-types = "=1.8.1"
aws-types = "=1.6.0"
bytes = "=1.12.1"
serde = { version = "=1.0.229", features = ["derive"] }
serde_dynamo = { version = "=4.3.0", features = ["aws-sdk-dynamodb+1"] }
tracing = "=0.1.44"
tracing-subscriber = { version = "=0.3.23", features = ["env-filter", "json"] }
