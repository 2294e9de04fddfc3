[package]
name = "lumibaer"
version = "0.1.0"
edition = "2021"
publish = false

[dependencies]
rand = "=0.8.8"
ws2818-rgb-led-spi-driver = "=2.0.0"
prisma = "=0.1.1"
angular-units = "=0.2.4"
paho-mqtt = { version = "=0.14.0", default-features = false }
futures = "=0.3.34"
ctrlc = "=3.5.2"
dotenv = "=0.15.0"
fps_clock = "=2.0.0"
lazy_static = "=1.5.1"
spectrum-analyzer = "=2.0.0"
portaudio = "=0.8.0"
speedy2d = "=3.1.0"
