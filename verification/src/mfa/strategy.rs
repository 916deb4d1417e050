pub mod tp_app;
